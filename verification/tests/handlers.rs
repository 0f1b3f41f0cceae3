use servicer::handlers::{
    conclude_edit, edit_file, handle_edit_service_file, handle_print_service_file,
    handle_show_logs, EditPlan, EditResult,
};

#[test]
fn print_reports_the_contents() {
    assert_eq!(
        handle_print_service_file("api", Some("[Unit]\n")),
        Ok("Reading /etc/systemd/system/api.ser.service:\n[Unit]\n".to_string())
    );
}

#[test]
fn print_complains_about_a_missing_file() {
    assert_eq!(
        handle_print_service_file("api", None),
        Err("/etc/systemd/system/api.ser.service: No such file".to_string())
    );
}

#[test]
fn log_reader_arguments() {
    assert_eq!(
        handle_show_logs("api", 15, false),
        vec!["-u", "api.ser.service", "-n", "15"]
    );
    assert_eq!(
        handle_show_logs("api", 0, true),
        vec!["-u", "api.ser.service", "-n", "0", "--follow"]
    );
    assert_eq!(handle_show_logs("x", 4294967295, false)[3], "4294967295");
    assert_eq!(handle_show_logs("x", 1000, false)[3], "1000");
}

#[test]
fn installed_descriptor_is_edited_in_place() {
    match handle_edit_service_file("api", true) {
        EditPlan::InPlace { path } => assert_eq!(path, "/etc/systemd/system/api.ser.service"),
        other => panic!("unexpected plan {:?}", other),
    }
}

#[test]
fn new_descriptor_starts_from_the_template() {
    match handle_edit_service_file("api", false) {
        EditPlan::FromTemplate { prefix, template, destination } => {
            assert_eq!(prefix, "api.ser.service");
            assert_eq!(destination, "/etc/systemd/system/api.ser.service");
            assert!(template.starts_with("\n# Generated with servicer\n[Unit]\n"));
            assert!(template.contains("\nExecStart=/path/to/your/command\nRestart=always\n"));
            assert!(template.ends_with("[Install]\nWantedBy=multi-user.target\n"));
        }
        other => panic!("unexpected plan {:?}", other),
    }
}

#[test]
fn edit_counts_only_when_the_file_changed() {
    assert!(edit_file(true, 10, 11));
    assert!(!edit_file(true, 10, 10));
    assert!(!edit_file(false, 10, 11));
    assert!(!edit_file(false, 10, 10));
}

#[test]
fn edit_results() {
    assert_eq!(conclude_edit(true, true), EditResult::Edited);
    assert_eq!(conclude_edit(true, false), EditResult::EditCanceled);
    assert_eq!(conclude_edit(false, true), EditResult::Created);
    assert_eq!(conclude_edit(false, false), EditResult::CreateCanceled);
}
