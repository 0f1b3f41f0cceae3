use servicer::control::{
    address_failure, changes_from_reply, disable_service, enable_service, get_active_state,
    get_load_state, get_main_pid, get_unit_file_state, job_from_reply, main_pid_from_reply,
    plan_query, reload_service, start_service, state_from_reply, stop_service,
    unaddressable_state, BusFailure, ControlError, ManagerCall, QueryStep, UnitProperty,
};

fn refused(name: &str) -> BusFailure {
    BusFailure::Refused { error_name: name.to_string() }
}

fn read_of(step: QueryStep) -> (String, String, String) {
    match step {
        QueryStep::Read(read) => (read.path, read.interface, read.property),
        QueryStep::Unaddressable => panic!("the unit should be addressable"),
    }
}

#[test]
fn queries_read_at_the_escaped_path() {
    let (path, interface, property) = read_of(get_load_state("hello-world.ser.service"));
    assert_eq!(path, "/org/freedesktop/systemd1/unit/hello_2dworld_2eser_2eservice");
    assert_eq!(interface, "org.freedesktop.systemd1.Unit");
    assert_eq!(property, "LoadState");
    let (_, interface, property) = read_of(get_active_state("a.ser.service"));
    assert_eq!((interface.as_str(), property.as_str()), ("org.freedesktop.systemd1.Unit", "ActiveState"));
    let (_, interface, property) = read_of(get_unit_file_state("a.ser.service"));
    assert_eq!((interface.as_str(), property.as_str()), ("org.freedesktop.systemd1.Unit", "UnitFileState"));
    let (path, interface, property) = read_of(get_main_pid("a.ser.service"));
    assert_eq!(path, "/org/freedesktop/systemd1/unit/a_2eser_2eservice");
    assert_eq!((interface.as_str(), property.as_str()), ("org.freedesktop.systemd1.Service", "MainPID"));
}

#[test]
fn names_that_escape_to_no_object_path_are_not_read() {
    for name in ["", "/a.ser.service", "a//b.ser.service", "dir/", "/"] {
        assert!(matches!(plan_query(name, UnitProperty::LoadState), QueryStep::Unaddressable));
        assert!(matches!(get_main_pid(name), QueryStep::Unaddressable));
    }
    assert!(matches!(plan_query("dir/a b.ser.service", UnitProperty::LoadState), QueryStep::Read(_)));
    assert!(matches!(plan_query("\u{e9}", UnitProperty::ActiveState), QueryStep::Read(_)));
}

#[test]
fn unaddressable_unit_has_the_sentinel_state() {
    assert_eq!(unaddressable_state(), "invalid-unit-path");
}

#[test]
fn never_created_unit_reports_invalid_unit_path() {
    let reply = Err(refused("org.freedesktop.systemd1.NoSuchUnit"));
    assert_eq!(state_from_reply(reply), Ok("invalid-unit-path".to_string()));
    let reply = Err(refused("org.freedesktop.DBus.Error.UnknownObject"));
    assert_eq!(state_from_reply(reply), Ok("invalid-unit-path".to_string()));
}

#[test]
fn transport_failures_are_errors() {
    assert_eq!(state_from_reply(Err(BusFailure::Unreachable)), Err(ControlError::TransportError));
    assert_eq!(
        state_from_reply(Err(refused("org.freedesktop.DBus.Error.AccessDenied"))),
        Err(ControlError::TransportError)
    );
    assert_eq!(
        main_pid_from_reply(Err(BusFailure::Unreachable)),
        Err(ControlError::TransportError)
    );
    assert_eq!(job_from_reply(Err(BusFailure::Unreachable)), Err(ControlError::TransportError));
    assert_eq!(changes_from_reply(Err(BusFailure::Unreachable)), Err(ControlError::TransportError));
}

#[test]
fn states_pass_through() {
    assert_eq!(state_from_reply(Ok("active".to_string())), Ok("active".to_string()));
    assert_eq!(state_from_reply(Ok("not-found".to_string())), Ok("not-found".to_string()));
}

#[test]
fn failures_are_told_apart() {
    assert!(address_failure(&refused("org.freedesktop.systemd1.NoSuchUnit")));
    assert!(address_failure(&refused("org.freedesktop.DBus.Error.UnknownObject")));
    assert!(!address_failure(&refused("org.freedesktop.DBus.Error.NoReply")));
    assert!(!address_failure(&refused("")));
    assert!(!address_failure(&BusFailure::Unreachable));
}

#[test]
fn main_pid_is_absent_without_a_process() {
    assert_eq!(main_pid_from_reply(Ok(4242)), Ok(Some(4242)));
    assert_eq!(main_pid_from_reply(Ok(0)), Ok(None));
    assert_eq!(
        main_pid_from_reply(Err(refused("org.freedesktop.systemd1.NoSuchUnit"))),
        Ok(None)
    );
}

#[test]
fn jobs_and_changes() {
    assert_eq!(
        job_from_reply(Ok("/org/freedesktop/systemd1/job/7".to_string())),
        Ok("/org/freedesktop/systemd1/job/7".to_string())
    );
    assert_eq!(
        job_from_reply(Err(refused("org.freedesktop.systemd1.NoSuchUnit"))),
        Err(ControlError::UnitNotFound)
    );
    assert_eq!(changes_from_reply(Ok(0)), Ok(false));
    assert_eq!(changes_from_reply(Ok(2)), Ok(true));
    assert_eq!(
        changes_from_reply(Err(refused("org.freedesktop.systemd1.NoSuchUnit"))),
        Err(ControlError::UnitNotFound)
    );
}

#[test]
fn lifecycle_calls_replace_queued_jobs() {
    match start_service("a.ser.service") {
        ManagerCall::StartUnit { name, mode } => {
            assert_eq!((name.as_str(), mode.as_str()), ("a.ser.service", "replace"))
        }
        other => panic!("unexpected call {:?}", other),
    }
    match stop_service("a.ser.service") {
        ManagerCall::StopUnit { name, mode } => {
            assert_eq!((name.as_str(), mode.as_str()), ("a.ser.service", "replace"))
        }
        other => panic!("unexpected call {:?}", other),
    }
    match reload_service("a.ser.service") {
        ManagerCall::ReloadUnit { name, mode } => {
            assert_eq!((name.as_str(), mode.as_str()), ("a.ser.service", "replace"))
        }
        other => panic!("unexpected call {:?}", other),
    }
}

#[test]
fn registration_calls_name_the_unit_file() {
    match enable_service("a.ser.service") {
        ManagerCall::EnableUnitFiles { files, runtime, force } => {
            assert_eq!(files, vec!["a.ser.service".to_string()]);
            assert!(!runtime);
            assert!(force);
        }
        other => panic!("unexpected call {:?}", other),
    }
    match disable_service("a.ser.service") {
        ManagerCall::DisableUnitFiles { files, runtime } => {
            assert_eq!(files, vec!["a.ser.service".to_string()]);
            assert!(!runtime);
        }
        other => panic!("unexpected call {:?}", other),
    }
}

/// A daemon that keeps in memory which unit files are enabled.
struct ScriptedDaemon {
    enabled: Vec<String>,
    known: Vec<String>,
}

impl ScriptedDaemon {
    fn call(&mut self, call: ManagerCall) -> Result<usize, BusFailure> {
        match call {
            ManagerCall::EnableUnitFiles { files, .. } => {
                let mut changes = 0;
                for f in files {
                    if !self.known.contains(&f) {
                        return Err(refused("org.freedesktop.systemd1.NoSuchUnit"));
                    }
                    if !self.enabled.contains(&f) {
                        self.enabled.push(f);
                        changes += 1;
                    }
                }
                Ok(changes)
            }
            ManagerCall::DisableUnitFiles { files, .. } => {
                let before = self.enabled.len();
                self.enabled.retain(|f| !files.contains(f));
                Ok(before - self.enabled.len())
            }
            _ => Ok(0),
        }
    }

    fn read(&self, path: &str) -> Result<String, BusFailure> {
        for unit in &self.known {
            if servicer::escape::get_unit_path(unit) == path {
                let state = if self.enabled.contains(unit) { "enabled" } else { "disabled" };
                return Ok(state.to_string());
            }
        }
        Err(refused("org.freedesktop.systemd1.NoSuchUnit"))
    }

    fn unit_file_state(&self, unit: &str) -> Result<String, ControlError> {
        match get_unit_file_state(unit) {
            QueryStep::Unaddressable => Ok(unaddressable_state()),
            QueryStep::Read(read) => state_from_reply(self.read(&read.path)),
        }
    }
}

#[test]
fn enable_then_query_reports_enabled() {
    let mut daemon =
        ScriptedDaemon { enabled: Vec::new(), known: vec!["index.js.ser.service".to_string()] };
    assert_eq!(daemon.unit_file_state("index.js.ser.service"), Ok("disabled".to_string()));
    let reply = daemon.call(enable_service("index.js.ser.service"));
    assert_eq!(changes_from_reply(reply), Ok(true));
    assert_eq!(daemon.unit_file_state("index.js.ser.service"), Ok("enabled".to_string()));
    let reply = daemon.call(enable_service("index.js.ser.service"));
    assert_eq!(changes_from_reply(reply), Ok(false));
    let reply = daemon.call(disable_service("index.js.ser.service"));
    assert_eq!(changes_from_reply(reply), Ok(true));
    assert_eq!(daemon.unit_file_state("index.js.ser.service"), Ok("disabled".to_string()));
}

#[test]
fn query_for_a_unit_that_was_never_created() {
    let daemon = ScriptedDaemon { enabled: Vec::new(), known: Vec::new() };
    assert_eq!(daemon.unit_file_state("ghost.ser.service"), Ok("invalid-unit-path".to_string()));
    assert_eq!(daemon.unit_file_state("a//b"), Ok("invalid-unit-path".to_string()));
}
