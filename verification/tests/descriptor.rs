use servicer::descriptor::{
    build_exec_command, choose_interpreter, create_service_file, describe_service, file_extension,
    get_interpreter, render, service_file_text, DescriptorError, RestartPolicy, ServiceDescriptor,
};
use servicer::text::split_words;

fn sample(policy: RestartPolicy, environment: Vec<String>) -> ServiceDescriptor {
    ServiceDescriptor {
        service_name: "index.js".to_string(),
        working_directory: "/home/hp/app".to_string(),
        exec_command: "/usr/bin/node index.js --port 80".to_string(),
        restart_policy: policy,
        environment,
        owner_user: "hp".to_string(),
    }
}

#[test]
fn default_interpreters() {
    assert_eq!(get_interpreter(Some("js")), Ok(Some("node".to_string())));
    assert_eq!(get_interpreter(Some("py")), Ok(Some("python3".to_string())));
    assert_eq!(get_interpreter(None), Ok(None));
}

#[test]
fn unmapped_extension_is_refused() {
    assert_eq!(get_interpreter(Some("rb")), Err(DescriptorError::UnknownInterpreter));
    assert_eq!(get_interpreter(Some("")), Err(DescriptorError::UnknownInterpreter));
    assert_eq!(get_interpreter(Some("JS")), Err(DescriptorError::UnknownInterpreter));
    assert_eq!(choose_interpreter(None, "main.rb"), Err(DescriptorError::UnknownInterpreter));
}

#[test]
fn index_js_runs_with_node() {
    assert_eq!(choose_interpreter(None, "index.js"), Ok(Some("node".to_string())));
}

#[test]
fn explicit_interpreter_wins() {
    assert_eq!(choose_interpreter(Some("deno"), "index.js"), Ok(Some("deno".to_string())));
    assert_eq!(choose_interpreter(Some("ruby"), "main.rb"), Ok(Some("ruby".to_string())));
    assert_eq!(choose_interpreter(None, "run"), Ok(None));
}

#[test]
fn extensions() {
    assert_eq!(file_extension("index.js"), Some("js".to_string()));
    assert_eq!(file_extension("archive.tar.gz"), Some("gz".to_string()));
    assert_eq!(file_extension("run"), None);
    assert_eq!(file_extension(".bashrc"), None);
    assert_eq!(file_extension(".config.py"), Some("py".to_string()));
    assert_eq!(file_extension("name."), Some("".to_string()));
    assert_eq!(file_extension(""), None);
}

#[test]
fn exec_command_keeps_the_order() {
    let args = vec!["--port".to_string(), "80".to_string(), "-v".to_string()];
    assert_eq!(
        build_exec_command(Some("/usr/bin/node"), "index.js", &args),
        "/usr/bin/node index.js --port 80 -v"
    );
    assert_eq!(build_exec_command(None, "run.sh", &args), "run.sh --port 80 -v");
    assert_eq!(build_exec_command(None, "run.sh", &Vec::new()), "run.sh");
    assert_eq!(build_exec_command(Some("/bin/sh"), "run.sh", &Vec::new()), "/bin/sh run.sh");
}

#[test]
fn renders_restart_and_environment() {
    let d = sample(RestartPolicy::Always, vec!["A=1".to_string(), "B=two words".to_string()]);
    let expected = "# Generated with Servicer\n\
[Unit]\n\
Description=Servicer:index.js\n\
After=network.target\n\
\n\
[Service]\n\
Type=simple\n\
User=hp\n\
\n\
WorkingDirectory=/home/hp/app\n\
ExecStart=/usr/bin/node index.js --port 80\n\
Restart=always\n\
Environment=A=1\n\
Environment=B=two words\n\
\n\
[Install]\n\
WantedBy=multi-user.target\n";
    assert_eq!(render(&d), expected);
}

#[test]
fn never_omits_the_restart_directive() {
    let d = sample(RestartPolicy::Never, Vec::new());
    let text = render(&d);
    assert!(!text.contains("Restart"));
    let expected = "# Generated with Servicer\n\
[Unit]\n\
Description=Servicer:index.js\n\
After=network.target\n\
\n\
[Service]\n\
Type=simple\n\
User=hp\n\
\n\
WorkingDirectory=/home/hp/app\n\
ExecStart=/usr/bin/node index.js --port 80\n\
\n\
\n\
\n\
[Install]\n\
WantedBy=multi-user.target\n";
    assert_eq!(text, expected);
}

#[test]
fn always_differs_from_never_by_the_directive_only() {
    let never = render(&sample(RestartPolicy::Never, vec!["A=1".to_string()]));
    let always = render(&sample(RestartPolicy::Always, vec!["A=1".to_string()]));
    assert_eq!(always.replacen("Restart=always", "", 1), never);
}

#[test]
fn rendering_is_deterministic() {
    let a = sample(RestartPolicy::Always, vec!["A=1".to_string(), "A=2".to_string()]);
    let b = sample(RestartPolicy::Always, vec!["A=1".to_string(), "A=2".to_string()]);
    assert_eq!(render(&a), render(&a));
    assert_eq!(render(&a).as_bytes(), render(&b).as_bytes());
    assert!(render(&a).contains("Environment=A=1\nEnvironment=A=2\n"));
}

#[test]
fn header_names_the_generator() {
    let text = render(&sample(RestartPolicy::Never, Vec::new()));
    assert!(text.starts_with("# Generated with Servicer\n"));
}

#[test]
fn words_are_split_at_white_space() {
    assert_eq!(split_words("A=1 B=2"), vec!["A=1".to_string(), "B=2".to_string()]);
    assert_eq!(split_words("  A=1\t\nB=2  "), vec!["A=1".to_string(), "B=2".to_string()]);
    assert_eq!(split_words("A=1\u{a0}B=2\u{3000}C"), vec!["A=1", "B=2", "C"]);
    assert_eq!(split_words(""), Vec::<String>::new());
    assert_eq!(split_words(" \t "), Vec::<String>::new());
    assert_eq!(split_words("one"), vec!["one".to_string()]);
    let std_words: Vec<String> =
        "a\u{2000}b\u{85}c\u{1680}d\u{200b}e".split_whitespace().map(|w| w.to_string()).collect();
    assert_eq!(split_words("a\u{2000}b\u{85}c\u{1680}d\u{200b}e"), std_words);
}

#[test]
fn descriptor_is_assembled_from_its_parts() {
    let args = vec!["x".to_string()];
    let d = describe_service(
        "api",
        "/srv",
        true,
        Some("/usr/bin/python3"),
        vec!["K=V".to_string()],
        &args,
        "main.py",
        "hp",
    );
    assert_eq!(d.service_name, "api");
    assert_eq!(d.working_directory, "/srv");
    assert_eq!(d.exec_command, "/usr/bin/python3 main.py x");
    assert_eq!(d.restart_policy, RestartPolicy::Always);
    assert_eq!(d.environment, vec!["K=V".to_string()]);
    assert_eq!(d.owner_user, "hp");
    let d = describe_service("api", "/srv", false, None, Vec::new(), &Vec::new(), "run", "hp");
    assert_eq!(d.exec_command, "run");
    assert_eq!(d.restart_policy, RestartPolicy::Never);
}

#[test]
fn missing_executable_gives_no_text() {
    let r = service_file_text(
        "api", "/srv", false, Some("node"), None, None, &Vec::new(), "index.js", "hp",
    );
    assert_eq!(r, Err(DescriptorError::InterpreterNotFound));
}

#[test]
fn text_for_a_located_interpreter() {
    let r = service_file_text(
        "api",
        "/srv",
        true,
        Some("node"),
        Some("/opt/node/bin/node"),
        Some("PORT=80  MODE=prod"),
        &vec!["--fast".to_string()],
        "index.js",
        "hp",
    )
    .unwrap();
    let expected = "# Generated with Servicer\n[Unit]\nDescription=Servicer:api\nAfter=network.target\n\n[Service]\nType=simple\nUser=hp\n\nWorkingDirectory=/srv\nExecStart=/opt/node/bin/node index.js --fast\nRestart=always\nEnvironment=PORT=80\nEnvironment=MODE=prod\n\n[Install]\nWantedBy=multi-user.target\n";
    assert_eq!(r, expected);
}

#[test]
fn file_without_interpreter_ignores_the_search() {
    let with = service_file_text(
        "run", "/srv", false, None, Some("/bin/sh"), None, &Vec::new(), "run", "hp",
    );
    let without =
        service_file_text("run", "/srv", false, None, None, None, &Vec::new(), "run", "hp");
    assert_eq!(with, without);
    assert!(with.unwrap().contains("\nExecStart=run\n"));
}

#[test]
fn service_file_without_interpreter_needs_no_search() {
    let text =
        create_service_file("run", "/srv", false, None, None, &Vec::new(), "run", "hp").unwrap();
    assert!(text.contains("\nExecStart=run\n"));
    assert!(text.contains("\nUser=hp\n"));
}

#[test]
fn service_file_names_the_executable_by_its_path() {
    let text =
        create_service_file("run", "/srv", false, Some("sh"), None, &Vec::new(), "run.sh", "hp")
            .unwrap();
    let line = text.lines().find(|l| l.starts_with("ExecStart=")).unwrap();
    let command = &line["ExecStart=".len()..];
    assert!(command.starts_with('/'));
    assert!(command.ends_with("/sh run.sh"));
    assert_ne!(command, "sh run.sh");
}

#[test]
fn service_file_fails_for_an_interpreter_that_is_not_installed() {
    let r = create_service_file(
        "run",
        "/srv",
        false,
        Some("no-such-interpreter-anywhere-on-this-host"),
        None,
        &Vec::new(),
        "run.x",
        "hp",
    );
    assert_eq!(r, Err(DescriptorError::InterpreterNotFound));
}
