use systemd_gateway::dto::{
    ExecData, ExecDataTuple, ServiceDto, ServiceProps, UnitDto, UnitListEntry, UnitListEntryTuple,
    UnitProps, assemble_list_entries, exec_data_tuple_vec_to_struct,
};
use systemd_gateway::gateway::str_ends_with;
use systemd_gateway::journald::frame_journal_lines;
use systemd_gateway::names::is_valid_object_path;
use systemd_gateway::process_info::lookup_process_name;

fn sample_exec_row() -> ExecDataTuple {
    (
        "/usr/sbin/nginx".to_string(),
        vec!["-g".to_string(), "daemon off;".to_string()],
        true,
        100,
        100,
        0,
        0,
        1234,
        0,
        0,
    )
}

fn sample_unit_props() -> UnitProps {
    UnitProps {
        id: "nginx.service".to_string(),
        names: vec!["nginx.service".to_string()],
        description: "nginx web server".to_string(),
        documentation: vec!["man:nginx(8)".to_string()],
        triggered_by: vec![],
        load_state: "loaded".to_string(),
        active_state: "active".to_string(),
        sub_state: "running".to_string(),
        load_error: (String::new(), String::new()),
        fragment_path: "/lib/systemd/system/nginx.service".to_string(),
        unit_file_state: "enabled".to_string(),
        unit_file_preset: "enabled".to_string(),
        state_change_timestamp: 1700000000000000,
    }
}

fn sample_service_props() -> ServiceProps {
    ServiceProps {
        exec_main_pid: 1234,
        exec_main_code: 0,
        exec_main_status: 0,
        memory_current: 10485760,
        cpu_usage_nsec: 5000000,
        tasks_current: 2,
        result: "success".to_string(),
        status_text: String::new(),
        status_errno: 0,
        exec_start: vec![sample_exec_row()],
    }
}

#[test]
fn exec_table_empty_rows_give_empty_table() {
    let out = exec_data_tuple_vec_to_struct(vec![]);
    assert!(out.is_empty());
}

#[test]
fn exec_row_maps_positionally() {
    let out = exec_data_tuple_vec_to_struct(vec![sample_exec_row()]);
    assert_eq!(out.len(), 1);
    let e = &out[0];
    assert_eq!(e.path_to_binary, "/usr/sbin/nginx");
    assert_eq!(e.args, vec!["-g".to_string(), "daemon off;".to_string()]);
    assert!(e.should_unclean_exit_mean_failure);
    assert_eq!(e.clock_realtime_start, 100);
    assert_eq!(e.clock_monotonic_start, 100);
    assert_eq!(e.clock_realtime_finish, 0);
    assert_eq!(e.clock_monotonic_finish, 0);
    assert_eq!(e.pid, 1234);
    assert_eq!(e.last_exit_code, 0);
    assert_eq!(e.last_status, 0);
}

#[test]
fn exec_row_field_swap_changes_exactly_those_fields() {
    let row = (
        "/bin/app".to_string(),
        vec![],
        false,
        11,
        22,
        33,
        44,
        7,
        1,
        2,
    );
    // The same row with the two realtime/monotonic start timestamps swapped.
    let swapped = (
        "/bin/app".to_string(),
        vec![],
        false,
        22,
        11,
        33,
        44,
        7,
        1,
        2,
    );
    let a = ExecData::from(row);
    let b = ExecData::from(swapped);
    assert_eq!(a.clock_realtime_start, 11);
    assert_eq!(b.clock_realtime_start, 22);
    assert_eq!(a.clock_monotonic_start, 22);
    assert_eq!(b.clock_monotonic_start, 11);
    // Every other output field is untouched by the swap.
    assert_eq!(a.path_to_binary, b.path_to_binary);
    assert_eq!(a.args, b.args);
    assert_eq!(
        a.should_unclean_exit_mean_failure,
        b.should_unclean_exit_mean_failure
    );
    assert_eq!(a.clock_realtime_finish, b.clock_realtime_finish);
    assert_eq!(a.clock_monotonic_finish, b.clock_monotonic_finish);
    assert_eq!(a.pid, b.pid);
    assert_eq!(a.last_exit_code, b.last_exit_code);
    assert_eq!(a.last_status, b.last_status);
}

fn list_row(name: &str) -> UnitListEntryTuple {
    (
        name.to_string(),
        format!("{} description", name),
        "loaded".to_string(),
        "active".to_string(),
        "running".to_string(),
        String::new(),
        format!("/org/freedesktop/systemd1/unit/{}", name),
        0,
        String::new(),
        "/".to_string(),
    )
}

#[test]
fn list_entries_keep_supplied_order() {
    let rows = vec![list_row("b.service"), list_row("a.service"), list_row("c.timer")];
    let entries = assemble_list_entries(rows);
    assert_eq!(entries.len(), 3);
    assert_eq!(entries[0].name, "b.service");
    assert_eq!(entries[1].name, "a.service");
    assert_eq!(entries[2].name, "c.timer");
}

#[test]
fn list_entry_maps_positionally() {
    let entry = UnitListEntry::from(list_row("x.service"));
    assert_eq!(entry.name, "x.service");
    assert_eq!(entry.description, "x.service description");
    assert_eq!(entry.load_state, "loaded");
    assert_eq!(entry.active_state, "active");
    assert_eq!(entry.sub_state, "running");
    assert_eq!(entry.followed, "");
    assert_eq!(entry.object_path, "/org/freedesktop/systemd1/unit/x.service");
    assert_eq!(entry.queued_job_id, 0);
    assert_eq!(entry.queued_job_type, "");
    assert_eq!(entry.queued_job_object_path, "/");
}

#[test]
fn service_record_complete_when_enrichment_misses() {
    let record = ServiceDto::assemble(sample_service_props(), None);
    assert_eq!(record.extra_main_name, None);
    assert_eq!(record.exec_main_pid, 1234);
    assert_eq!(record.exec_main_code, 0);
    assert_eq!(record.exec_main_status, 0);
    assert_eq!(record.memory_current, 10485760);
    assert_eq!(record.cpu_usage_nsec, 5000000);
    assert_eq!(record.tasks_current, 2);
    assert_eq!(record.result, "success");
    assert_eq!(record.status_text, "");
    assert_eq!(record.status_errno, 0);
    assert_eq!(record.exec_start.len(), 1);
}

#[test]
fn service_record_keeps_resolved_name() {
    let record = ServiceDto::assemble(sample_service_props(), Some("nginx".to_string()));
    assert_eq!(record.extra_main_name, Some("nginx".to_string()));
}

#[test]
fn unit_record_starts_without_service() {
    let unit = UnitDto::from_props(sample_unit_props());
    assert!(unit.service.is_none());
    assert_eq!(unit.id, "nginx.service");
    assert_eq!(unit.active_state, "active");
    assert_eq!(unit.sub_state, "running");
    assert_eq!(unit.state_change_timestamp, 1700000000000000);
}

#[test]
fn add_service_attaches_and_keeps_other_fields() {
    let mut unit = UnitDto::from_props(sample_unit_props());
    let service = ServiceDto::assemble(sample_service_props(), None);
    unit.add_service(service);
    assert!(unit.service.is_some());
    assert_eq!(unit.id, "nginx.service");
    assert_eq!(unit.description, "nginx web server");
    assert_eq!(unit.service.as_ref().unwrap().exec_main_pid, 1234);
}

#[test]
fn service_suffix_detection() {
    assert!(str_ends_with("nginx.service", ".service"));
    assert!(str_ends_with(".service", ".service"));
    assert!(!str_ends_with("nginx.timer", ".service"));
    assert!(!str_ends_with("service", ".service"));
    assert!(!str_ends_with("", ".service"));
    assert!(!str_ends_with("nginx.Service", ".service"));
}

#[test]
fn journal_lines_frame_into_array() {
    let bytes: Vec<u8> = b"{\"a\":1}\n{\"b\":2}".to_vec();
    let framed = frame_journal_lines(&bytes);
    assert_eq!(framed, b"[{\"a\":1},{\"b\":2}]".to_vec());
}

#[test]
fn journal_empty_output_frames_to_empty_array() {
    let framed = frame_journal_lines(&Vec::new());
    assert_eq!(framed, b"[]".to_vec());
}

#[test]
fn process_lookup_misses_for_impossible_pid() {
    assert_eq!(lookup_process_name(999999999), None);
}

#[test]
fn connecting_without_a_bus_yields_an_error_not_a_panic() {
    // In an environment with no reachable system bus the connection
    // attempt must surface a structured error; with one, it must succeed.
    match systemd_gateway::dbus_interface::DBusInterface::new() {
        Ok(_) => {}
        Err(e) => {
            // The error is the library's own record; reading its fields
            // must be safe whatever the transport reported.
            let _ = e.name.as_deref();
            let _ = e.message.as_deref();
        }
    }
}

#[test]
fn object_path_validation_accepts_protocol_paths() {
    assert!(is_valid_object_path("/"));
    assert!(is_valid_object_path("/org/freedesktop/systemd1"));
    assert!(is_valid_object_path(
        "/org/freedesktop/systemd1/unit/nginx_2eservice"
    ));
    assert!(is_valid_object_path("/a_b/C9"));
}

#[test]
fn object_path_validation_rejects_malformed_paths() {
    assert!(!is_valid_object_path(""));
    assert!(!is_valid_object_path("org/freedesktop"));
    assert!(!is_valid_object_path("/a/"));
    assert!(!is_valid_object_path("//"));
    assert!(!is_valid_object_path("/a//b"));
    assert!(!is_valid_object_path("/a-b"));
    assert!(!is_valid_object_path("/a.b"));
    assert!(!is_valid_object_path("/ä"));
}
