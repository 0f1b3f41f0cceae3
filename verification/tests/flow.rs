use servicer::control::{BusFailure, ControlError, ManagerCall};
use servicer::names::file_name_of;
use servicer::flow::{
    decide_overwrite, handle_create_service, plan_creation, snapshot_from_replies,
    unit_is_absent, unit_is_running, CreateError, HostFacts, Overwrite,
};

fn host(is_file: bool, descriptor_exists: bool) -> HostFacts {
    HostFacts {
        is_file,
        descriptor_exists,
        working_directory: "/home/hp/app".to_string(),
        owner_user: "hp".to_string(),
    }
}

#[test]
fn creating_for_index_js() {
    let plan = plan_creation(
        "app/index.js",
        None,
        true,
        true,
        true,
        None,
        Some("PORT=80"),
        &vec!["--fast".to_string()],
        &host(true, false),
        Some("/usr/bin/node"),
    )
    .unwrap();
    assert_eq!(plan.full_service_name, "index.js.ser.service");
    assert_eq!(plan.descriptor_path, "/etc/systemd/system/index.js.ser.service");
    let expected = "# Generated with Servicer\n[Unit]\nDescription=Servicer:index.js\nAfter=network.target\n\n[Service]\nType=simple\nUser=hp\n\nWorkingDirectory=/home/hp/app\nExecStart=/usr/bin/node index.js --fast\nRestart=always\nEnvironment=PORT=80\n\n[Install]\nWantedBy=multi-user.target\n";
    assert_eq!(plan.descriptor_text, expected);
    assert_eq!(plan.calls.len(), 2);
    assert!(matches!(&plan.calls[0], ManagerCall::StartUnit { name, mode }
        if name == "index.js.ser.service" && mode == "replace"));
    assert!(matches!(&plan.calls[1], ManagerCall::EnableUnitFiles { files, runtime: false, force: true }
        if files.len() == 1 && files[0] == "index.js.ser.service"));
}

#[test]
fn custom_name_names_the_unit_not_the_file() {
    let plan = plan_creation(
        "/srv/main.py",
        Some("api"),
        false,
        false,
        false,
        None,
        None,
        &Vec::new(),
        &host(true, false),
        Some("/usr/bin/python3"),
    )
    .unwrap();
    assert_eq!(plan.full_service_name, "api.ser.service");
    assert!(plan.descriptor_text.contains("\nDescription=Servicer:api\n"));
    assert!(plan.descriptor_text.contains("\nExecStart=/usr/bin/python3 main.py\n"));
    assert!(!plan.descriptor_text.contains("Restart"));
    assert!(plan.calls.is_empty());
}

#[test]
fn creation_errors_in_order() {
    let args = Vec::new();
    let r = plan_creation("index.js", None, false, false, false, None, None, &args, &host(false, true), None);
    assert_eq!(r.unwrap_err(), CreateError::InvalidInput);
    let r = plan_creation("dir/", None, false, false, false, None, None, &args, &host(true, true), None);
    assert_eq!(r.unwrap_err(), CreateError::InvalidInput);
    let r = plan_creation("main.rb", None, false, false, false, None, None, &args, &host(true, true), None);
    assert_eq!(r.unwrap_err(), CreateError::AlreadyExists);
    let r = plan_creation("main.rb", None, false, false, false, None, None, &args, &host(true, false), None);
    assert_eq!(r.unwrap_err(), CreateError::UnknownInterpreter);
    let r = plan_creation("main.rb", None, false, false, false, None, None, &args, &host(true, false), Some("/usr/bin/ruby"));
    assert_eq!(r.unwrap_err(), CreateError::UnknownInterpreter);
    let r = plan_creation("index.js", None, false, false, false, None, None, &args, &host(true, false), None);
    assert_eq!(r.unwrap_err(), CreateError::InterpreterNotFound);
    let r = plan_creation("main.rb", None, false, false, false, Some("ruby"), None, &args, &host(true, false), None);
    assert_eq!(r.unwrap_err(), CreateError::InterpreterNotFound);
}

#[test]
fn create_handler_without_interpreter() {
    let plan = handle_create_service(
        "./bin/run", None, true, false, false, None, None, &Vec::new(), &host(true, false),
    )
    .unwrap();
    assert_eq!(plan.full_service_name, "run.ser.service");
    assert!(plan.descriptor_text.contains("\nExecStart=run\n"));
    assert_eq!(plan.calls.len(), 1);
}

#[test]
fn create_handler_searches_for_the_interpreter() {
    let plan = handle_create_service(
        "run.sh", None, false, true, false, Some("sh"), None, &Vec::new(), &host(true, false),
    )
    .unwrap();
    let line = plan.descriptor_text.lines().find(|l| l.starts_with("ExecStart=")).unwrap();
    assert!(line.starts_with("ExecStart=/"));
    assert!(line.ends_with("/sh run.sh"));
    let r = handle_create_service(
        "run.sh",
        None,
        false,
        true,
        false,
        Some("no-such-interpreter-anywhere-on-this-host"),
        None,
        &Vec::new(),
        &host(true, false),
    );
    assert_eq!(r.unwrap_err(), CreateError::InterpreterNotFound);
}

#[test]
fn create_handler_refuses_before_any_search() {
    let args = Vec::new();
    let r = handle_create_service("main.rb", None, false, false, false, None, None, &args, &host(true, false));
    assert_eq!(r.unwrap_err(), CreateError::UnknownInterpreter);
    let r = handle_create_service("index.js", None, false, false, false, None, None, &args, &host(true, true));
    assert_eq!(r.unwrap_err(), CreateError::AlreadyExists);
    let r = handle_create_service("index.js", None, false, false, false, None, None, &args, &host(false, false));
    assert_eq!(r.unwrap_err(), CreateError::InvalidInput);
}

#[test]
fn file_names() {
    assert_eq!(file_name_of("/a/b/c.js"), "c.js");
    assert_eq!(file_name_of("c.js"), "c.js");
    assert_eq!(file_name_of("a/"), "");
    assert_eq!(file_name_of(""), "");
}

#[test]
fn absent_and_running_states() {
    assert!(unit_is_absent("invalid-unit-path"));
    assert!(unit_is_absent("not-found"));
    assert!(!unit_is_absent("loaded"));
    assert!(unit_is_running("active"));
    assert!(unit_is_running("reloading"));
    assert!(!unit_is_running("failed"));
    assert!(!unit_is_running("inactive"));
}

#[test]
fn overwrite_decisions() {
    assert_eq!(decide_overwrite("active", false, true), Overwrite::Refuse);
    assert_eq!(decide_overwrite("reloading", false, false), Overwrite::Refuse);
    assert_eq!(decide_overwrite("active", true, true), Overwrite::Write);
    assert_eq!(decide_overwrite("failed", false, true), Overwrite::Keep);
    assert_eq!(decide_overwrite("failed", true, true), Overwrite::Write);
    assert_eq!(decide_overwrite("inactive", false, false), Overwrite::Write);
}

#[test]
fn snapshot_of_a_running_unit() {
    let s = snapshot_from_replies(
        Ok("loaded".to_string()),
        Ok("active".to_string()),
        Ok("enabled".to_string()),
        Ok(77),
    )
    .unwrap();
    assert_eq!(s.load_state, "loaded");
    assert_eq!(s.active_state, "active");
    assert_eq!(s.unit_file_state, "enabled");
    assert_eq!(s.main_pid, Some(77));
}

#[test]
fn snapshot_of_a_unit_that_was_never_created() {
    let gone = || BusFailure::Refused { error_name: "org.freedesktop.systemd1.NoSuchUnit".to_string() };
    let s = snapshot_from_replies(Err(gone()), Err(gone()), Err(gone()), Err(gone())).unwrap();
    assert_eq!(s.load_state, "invalid-unit-path");
    assert_eq!(s.active_state, "invalid-unit-path");
    assert_eq!(s.unit_file_state, "invalid-unit-path");
    assert_eq!(s.main_pid, None);
}

#[test]
fn snapshot_fails_with_the_transport() {
    let r = snapshot_from_replies(
        Ok("loaded".to_string()),
        Err(BusFailure::Unreachable),
        Ok("enabled".to_string()),
        Ok(0),
    );
    assert_eq!(r.unwrap_err(), ControlError::TransportError);
}
