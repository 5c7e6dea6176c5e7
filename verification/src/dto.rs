//! Data-transfer records assembled from raw remote-call results.
//!
//! Each record is built fresh per request by a pure, positional mapping from
//! the wire-shaped rows the service manager returns; field order is part of
//! the wire contract and must match exactly.
use vstd::prelude::*;
use crate::api_errors::RemoteError;
use crate::dbus_interface::{ServiceProxy, UnitProxy};
use crate::names::valid_object_path;
use crate::process_info::lookup_process_name;

verus! {

/// One exec-start row as the service manager sends it: a positional 10-tuple.
pub type ExecDataTuple = (String, Vec<String>, bool, u64, u64, u64, u64, u32, i32, i32);

/// One row of the manager's unit table, with object paths already read back
/// as plain strings.
pub type UnitListEntryTuple = (
    String,
    String,
    String,
    String,
    String,
    String,
    String,
    u32,
    String,
    String,
);

/// One configured executable invocation of a service unit.
#[derive(Debug, Clone, PartialEq)]
pub struct ExecData {
    pub path_to_binary: String,
    /// Arguments passed to the binary.
    pub args: Vec<String>,
    /// Whether an unclean exit of the process counts as failure.
    pub should_unclean_exit_mean_failure: bool,
    /// Realtime clock timestamp in microseconds when the process began running.
    pub clock_realtime_start: u64,
    /// Monotonic clock timestamp in microseconds when the process began running.
    pub clock_monotonic_start: u64,
    /// Realtime clock timestamp in microseconds when the process finished running.
    pub clock_realtime_finish: u64,
    /// Monotonic clock timestamp in microseconds when the process finished running.
    pub clock_monotonic_finish: u64,
    pub pid: u32,
    /// Signal-class exit code (SIGCHLD class) reported by the manager.
    pub last_exit_code: i32,
    /// Last process exit code; 0 means success.
    pub last_status: i32,
}

/// The record that the positional mapping assigns to one exec-start row.
pub open spec fn exec_data_of(t: ExecDataTuple) -> ExecData {
    ExecData {
        path_to_binary: t.0,
        args: t.1,
        should_unclean_exit_mean_failure: t.2,
        clock_realtime_start: t.3,
        clock_monotonic_start: t.4,
        clock_realtime_finish: t.5,
        clock_monotonic_finish: t.6,
        pid: t.7,
        last_exit_code: t.8,
        last_status: t.9,
    }
}

impl From<ExecDataTuple> for ExecData {
    fn from(value: ExecDataTuple) -> (r: ExecData) {
        ExecData {
            path_to_binary: value.0,
            args: value.1,
            should_unclean_exit_mean_failure: value.2,
            clock_realtime_start: value.3,
            clock_monotonic_start: value.4,
            clock_realtime_finish: value.5,
            clock_monotonic_finish: value.6,
            pid: value.7,
            last_exit_code: value.8,
            last_status: value.9,
        }
    }
}

impl vstd::std_specs::convert::FromSpecImpl<ExecDataTuple> for ExecData {
    open spec fn obeys_from_spec() -> bool {
        true
    }

    open spec fn from_spec(t: ExecDataTuple) -> ExecData {
        exec_data_of(t)
    }
}

/// Maps every exec-start row to its record, element-wise and in order.
/// An empty row table yields an empty record table.
pub fn exec_data_tuple_vec_to_struct(data: Vec<ExecDataTuple>) -> (r: Vec<ExecData>)
    ensures
        r@.len() == data@.len(),
        forall|i: int| 0 <= i < data@.len() ==> r@[i] == exec_data_of(#[trigger] data@[i]),
{
    let ghost all: Seq<ExecDataTuple> = data@;
    let mut r: Vec<ExecData> = Vec::new();
    for t in it: data.into_iter()
        invariant
            it.seq() == all,
            r@.len() == it.index(),
            forall|i: int| 0 <= i < it.index() ==> r@[i] == exec_data_of(#[trigger] all[i]),
    {
        r.push(ExecData::from(t));
    }
    r
}

/// The positional mapping of one exec-start row touches each input field
/// exactly once: two rows map to equal records only when they are equal
/// field for field, so changing or swapping input fields changes exactly
/// the corresponding output fields and no others.
pub proof fn lemma_exec_mapping_injective(a: ExecDataTuple, b: ExecDataTuple)
    ensures
        exec_data_of(a) == exec_data_of(b) <==> a == b,
{
}

/// Each output field of the exec-row mapping is exactly the input field
/// at the corresponding position, and depends on no other: swapping two
/// input fields swaps exactly the two corresponding output fields.
pub proof fn lemma_exec_mapping_per_field(t: ExecDataTuple)
    ensures
        exec_data_of(t).path_to_binary == t.0,
        exec_data_of(t).args == t.1,
        exec_data_of(t).should_unclean_exit_mean_failure == t.2,
        exec_data_of(t).clock_realtime_start == t.3,
        exec_data_of(t).clock_monotonic_start == t.4,
        exec_data_of(t).clock_realtime_finish == t.5,
        exec_data_of(t).clock_monotonic_finish == t.6,
        exec_data_of(t).pid == t.7,
        exec_data_of(t).last_exit_code == t.8,
        exec_data_of(t).last_status == t.9,
{
}

/// One row of the manager's unit table under its external field names.
#[derive(Debug, Clone, PartialEq)]
pub struct UnitListEntry {
    /// The primary unit name.
    pub name: String,
    /// The human-readable description.
    pub description: String,
    /// Whether the unit file has been loaded successfully.
    pub load_state: String,
    /// Whether the unit is currently started or not.
    pub active_state: String,
    /// A more fine-grained version of the active state, specific to the
    /// unit type.
    pub sub_state: String,
    /// A unit followed in its state by this unit, if any, otherwise the
    /// empty string.
    pub followed: String,
    /// The unit object path.
    pub object_path: String,
    /// The numeric id of the queued job for the unit, 0 when none is queued.
    pub queued_job_id: u32,
    /// The queued job's type as a string.
    pub queued_job_type: String,
    /// The queued job's object path.
    pub queued_job_object_path: String,
}

/// The entry that the positional mapping assigns to one unit-table row.
pub open spec fn unit_list_entry_of(t: UnitListEntryTuple) -> UnitListEntry {
    UnitListEntry {
        name: t.0,
        description: t.1,
        load_state: t.2,
        active_state: t.3,
        sub_state: t.4,
        followed: t.5,
        object_path: t.6,
        queued_job_id: t.7,
        queued_job_type: t.8,
        queued_job_object_path: t.9,
    }
}

impl From<UnitListEntryTuple> for UnitListEntry {
    fn from(value: UnitListEntryTuple) -> (r: UnitListEntry) {
        UnitListEntry {
            name: value.0,
            description: value.1,
            load_state: value.2,
            active_state: value.3,
            sub_state: value.4,
            followed: value.5,
            object_path: value.6,
            queued_job_id: value.7,
            queued_job_type: value.8,
            queued_job_object_path: value.9,
        }
    }
}

impl vstd::std_specs::convert::FromSpecImpl<UnitListEntryTuple> for UnitListEntry {
    open spec fn obeys_from_spec() -> bool {
        true
    }

    open spec fn from_spec(t: UnitListEntryTuple) -> UnitListEntry {
        unit_list_entry_of(t)
    }
}

/// The positional mapping of one unit-table row touches each input field
/// exactly once: two rows map to equal entries only when they are equal
/// field for field.
pub proof fn lemma_list_entry_mapping_injective(a: UnitListEntryTuple, b: UnitListEntryTuple)
    ensures
        unit_list_entry_of(a) == unit_list_entry_of(b) <==> a == b,
{
}

/// Each output field of the unit-table mapping is exactly the input field
/// at the corresponding position, and depends on no other.
pub proof fn lemma_list_entry_mapping_per_field(t: UnitListEntryTuple)
    ensures
        unit_list_entry_of(t).name == t.0,
        unit_list_entry_of(t).description == t.1,
        unit_list_entry_of(t).load_state == t.2,
        unit_list_entry_of(t).active_state == t.3,
        unit_list_entry_of(t).sub_state == t.4,
        unit_list_entry_of(t).followed == t.5,
        unit_list_entry_of(t).object_path == t.6,
        unit_list_entry_of(t).queued_job_id == t.7,
        unit_list_entry_of(t).queued_job_type == t.8,
        unit_list_entry_of(t).queued_job_object_path == t.9,
{
}

/// Maps every unit-table row to its entry, element-wise and in the order
/// the table was supplied: no reordering, no filtering.
pub fn assemble_list_entries(rows: Vec<UnitListEntryTuple>) -> (r: Vec<UnitListEntry>)
    ensures
        r@.len() == rows@.len(),
        forall|i: int| 0 <= i < rows@.len() ==> r@[i] == unit_list_entry_of(#[trigger] rows@[i]),
{
    let ghost all: Seq<UnitListEntryTuple> = rows@;
    let mut r: Vec<UnitListEntry> = Vec::new();
    for t in it: rows.into_iter()
        invariant
            it.seq() == all,
            r@.len() == it.index(),
            forall|i: int| 0 <= i < it.index() ==> r@[i] == unit_list_entry_of(#[trigger] all[i]),
    {
        r.push(UnitListEntry::from(t));
    }
    r
}

/// The raw results of the unit-level property reads, one field per
/// property, in the order the remote interface names them.
#[derive(Debug)]
pub struct UnitProps {
    pub id: String,
    pub names: Vec<String>,
    pub description: String,
    pub documentation: Vec<String>,
    pub triggered_by: Vec<String>,
    pub load_state: String,
    pub active_state: String,
    pub sub_state: String,
    pub load_error: (String, String),
    pub fragment_path: String,
    pub unit_file_state: String,
    pub unit_file_preset: String,
    pub state_change_timestamp: u64,
}

/// The externally-visible description of one unit. The embedded service
/// record is present exactly when the unit was loaded as a service.
#[derive(Debug)]
pub struct UnitDto {
    pub id: String,
    pub names: Vec<String>,
    pub description: String,
    pub documentation: Vec<String>,
    pub triggered_by: Vec<String>,
    /// Whether the unit file has been loaded successfully.
    pub load_state: String,
    /// Whether the unit is currently started or not.
    pub active_state: String,
    /// A more fine-grained version of the active state, specific to the
    /// unit type.
    pub sub_state: String,
    pub load_error: (String, String),
    pub fragment_path: String,
    pub unit_file_state: String,
    pub unit_file_preset: String,
    pub state_change_timestamp: u64,
    /// The embedded service record; absent until one is attached.
    pub service: Option<ServiceDto>,
}

impl UnitDto {
    /// Whether a service record is attached.
    pub open spec fn has_service(self) -> bool {
        self.service is Some
    }

    /// Builds the unit record from its raw property values, with no
    /// service record attached.
    pub fn from_props(props: UnitProps) -> (r: UnitDto)
        ensures
            r.id == props.id,
            r.names == props.names,
            r.description == props.description,
            r.documentation == props.documentation,
            r.triggered_by == props.triggered_by,
            r.load_state == props.load_state,
            r.active_state == props.active_state,
            r.sub_state == props.sub_state,
            r.load_error == props.load_error,
            r.fragment_path == props.fragment_path,
            r.unit_file_state == props.unit_file_state,
            r.unit_file_preset == props.unit_file_preset,
            r.state_change_timestamp == props.state_change_timestamp,
            r.service is None,
    {
        UnitDto {
            id: props.id,
            names: props.names,
            description: props.description,
            documentation: props.documentation,
            triggered_by: props.triggered_by,
            load_state: props.load_state,
            active_state: props.active_state,
            sub_state: props.sub_state,
            load_error: props.load_error,
            fragment_path: props.fragment_path,
            unit_file_state: props.unit_file_state,
            unit_file_preset: props.unit_file_preset,
            state_change_timestamp: props.state_change_timestamp,
            service: None,
        }
    }

    /// Reads all unit-level properties through the proxy and assembles the
    /// record. The first failing read aborts the whole assembly, so no
    /// partial record is ever returned; a fresh record carries no service
    /// record. The proxy must be bound to a syntactically valid object
    /// path.
    pub fn create_from_proxy(proxy: &UnitProxy<'_>) -> (r: Result<UnitDto, RemoteError>)
        requires
            valid_object_path(proxy.path@),
        ensures
            r is Ok ==> (r->Ok_0).service is None,
    {
        let id = match proxy.id() {
            Ok(v) => v,
            Err(e) => return Err(e),
        };
        let names = match proxy.names() {
            Ok(v) => v,
            Err(e) => return Err(e),
        };
        let description = match proxy.description() {
            Ok(v) => v,
            Err(e) => return Err(e),
        };
        let documentation = match proxy.documentation() {
            Ok(v) => v,
            Err(e) => return Err(e),
        };
        let triggered_by = match proxy.triggered_by() {
            Ok(v) => v,
            Err(e) => return Err(e),
        };
        let load_state = match proxy.load_state() {
            Ok(v) => v,
            Err(e) => return Err(e),
        };
        let active_state = match proxy.active_state() {
            Ok(v) => v,
            Err(e) => return Err(e),
        };
        let sub_state = match proxy.sub_state() {
            Ok(v) => v,
            Err(e) => return Err(e),
        };
        let load_error = match proxy.load_error() {
            Ok(v) => v,
            Err(e) => return Err(e),
        };
        let fragment_path = match proxy.fragment_path() {
            Ok(v) => v,
            Err(e) => return Err(e),
        };
        let unit_file_state = match proxy.unit_file_state() {
            Ok(v) => v,
            Err(e) => return Err(e),
        };
        let unit_file_preset = match proxy.unit_file_preset() {
            Ok(v) => v,
            Err(e) => return Err(e),
        };
        let state_change_timestamp = match proxy.state_change_timestamp() {
            Ok(v) => v,
            Err(e) => return Err(e),
        };
        Ok(
            UnitDto::from_props(
                UnitProps {
                    id,
                    names,
                    description,
                    documentation,
                    triggered_by,
                    load_state,
                    active_state,
                    sub_state,
                    load_error,
                    fragment_path,
                    unit_file_state,
                    unit_file_preset,
                    state_change_timestamp,
                },
            ),
        )
    }

    /// Attaches the service record; every other field keeps its value.
    pub fn add_service(&mut self, service: ServiceDto)
        ensures
            final(self).service == Some(service),
            final(self).id == old(self).id,
            final(self).names == old(self).names,
            final(self).description == old(self).description,
            final(self).documentation == old(self).documentation,
            final(self).triggered_by == old(self).triggered_by,
            final(self).load_state == old(self).load_state,
            final(self).active_state == old(self).active_state,
            final(self).sub_state == old(self).sub_state,
            final(self).load_error == old(self).load_error,
            final(self).fragment_path == old(self).fragment_path,
            final(self).unit_file_state == old(self).unit_file_state,
            final(self).unit_file_preset == old(self).unit_file_preset,
            final(self).state_change_timestamp == old(self).state_change_timestamp,
    {
        self.service = Some(service);
    }
}

/// The raw results of the service-level property reads, one field per
/// property, with the exec-command table still in its positional row form.
#[derive(Debug, Clone, PartialEq)]
pub struct ServiceProps {
    pub exec_main_pid: u32,
    pub exec_main_code: i32,
    pub exec_main_status: i32,
    pub memory_current: u64,
    pub cpu_usage_nsec: u64,
    pub tasks_current: u64,
    pub result: String,
    pub status_text: String,
    pub status_errno: i32,
    pub exec_start: Vec<ExecDataTuple>,
}

/// Service-specific runtime facts of one unit.
#[derive(Debug, Clone, PartialEq)]
pub struct ServiceDto {
    pub exec_main_pid: u32,
    pub exec_main_code: i32,
    pub exec_main_status: i32,
    pub memory_current: u64,
    pub cpu_usage_nsec: u64,
    pub tasks_current: u64,
    pub result: String,
    pub status_text: String,
    pub status_errno: i32,
    pub exec_start: Vec<ExecData>,
    /// The resolved name of the main process, from the local process
    /// table, absent when the lookup found nothing.
    pub extra_main_name: Option<String>,
}

impl ServiceDto {
    /// Builds the service record from its raw property values and the
    /// best-effort process-name enrichment. A missing enrichment leaves
    /// the field absent; the record is complete either way.
    pub fn assemble(props: ServiceProps, extra_main_name: Option<String>) -> (r: ServiceDto)
        ensures
            r.exec_main_pid == props.exec_main_pid,
            r.exec_main_code == props.exec_main_code,
            r.exec_main_status == props.exec_main_status,
            r.memory_current == props.memory_current,
            r.cpu_usage_nsec == props.cpu_usage_nsec,
            r.tasks_current == props.tasks_current,
            r.result == props.result,
            r.status_text == props.status_text,
            r.status_errno == props.status_errno,
            r.exec_start@.len() == props.exec_start@.len(),
            forall|i: int|
                0 <= i < props.exec_start@.len() ==> r.exec_start@[i] == exec_data_of(
                    #[trigger] props.exec_start@[i],
                ),
            r.extra_main_name == extra_main_name,
    {
        ServiceDto {
            exec_main_pid: props.exec_main_pid,
            exec_main_code: props.exec_main_code,
            exec_main_status: props.exec_main_status,
            memory_current: props.memory_current,
            cpu_usage_nsec: props.cpu_usage_nsec,
            tasks_current: props.tasks_current,
            result: props.result,
            status_text: props.status_text,
            status_errno: props.status_errno,
            exec_start: exec_data_tuple_vec_to_struct(props.exec_start),
            extra_main_name,
        }
    }

    /// Reads all service-level properties through the proxy, resolves the
    /// best-effort process-name enrichment for the main pid, and assembles
    /// the record. The first failing property read aborts the whole
    /// assembly; a missed enrichment never does. The proxy must be bound
    /// to a syntactically valid object path.
    pub fn create_from_proxy(proxy: &ServiceProxy<'_>) -> Result<ServiceDto, RemoteError>
        requires
            valid_object_path(proxy.path@),
    {
        let exec_main_pid = match proxy.exec_main_pid() {
            Ok(v) => v,
            Err(e) => return Err(e),
        };
        let extra_main_name = lookup_process_name(exec_main_pid);
        let exec_main_code = match proxy.exec_main_code() {
            Ok(v) => v,
            Err(e) => return Err(e),
        };
        let exec_main_status = match proxy.exec_main_status() {
            Ok(v) => v,
            Err(e) => return Err(e),
        };
        let memory_current = match proxy.memory_current() {
            Ok(v) => v,
            Err(e) => return Err(e),
        };
        let cpu_usage_nsec = match proxy.cpuusage_nsec() {
            Ok(v) => v,
            Err(e) => return Err(e),
        };
        let tasks_current = match proxy.tasks_current() {
            Ok(v) => v,
            Err(e) => return Err(e),
        };
        let result = match proxy.result() {
            Ok(v) => v,
            Err(e) => return Err(e),
        };
        let status_text = match proxy.status_text() {
            Ok(v) => v,
            Err(e) => return Err(e),
        };
        let status_errno = match proxy.status_errno() {
            Ok(v) => v,
            Err(e) => return Err(e),
        };
        let exec_start = match proxy.exec_start() {
            Ok(v) => v,
            Err(e) => return Err(e),
        };
        Ok(
            ServiceDto::assemble(
                ServiceProps {
                    exec_main_pid,
                    exec_main_code,
                    exec_main_status,
                    memory_current,
                    cpu_usage_nsec,
                    tasks_current,
                    result,
                    status_text,
                    status_errno,
                    exec_start,
                },
                extra_main_name,
            ),
        )
    }
}

} // verus!
