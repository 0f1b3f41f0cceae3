//! Synthesis of unit-file descriptors.
//!
//! A descriptor is the text that the init daemon reads to learn how to run a
//! unit: who owns the process, where it runs, what it executes, whether it is
//! restarted, and with which environment.
use vstd::prelude::*;
use crate::names::opt_view;
use crate::text::{
    append_chars,
    chars_of,
    copy_range,
    owned,
    same_chars,
    split_words,
    string_of,
    strs_view,
    words,
};

verus! {

/// Whether the init daemon restarts the unit when it exits.
#[derive(Debug, Clone, Copy, PartialEq, Eq, Structural)]
pub enum RestartPolicy {
    /// The unit is left as it ended.
    Never,
    /// The unit is started again whenever it ends.
    Always,
}

/// Why no descriptor could be made.
#[derive(Debug, Clone, Copy, PartialEq, Eq, Structural)]
pub enum DescriptorError {
    /// No interpreter was given and the file's extension has none by default.
    UnknownInterpreter,
    /// The interpreter has no executable on the search path.
    InterpreterNotFound,
}

/// The parameters from which a unit file is rendered.
#[derive(Debug)]
pub struct ServiceDescriptor {
    /// The display name, without the product suffix.
    pub service_name: String,
    /// The absolute directory in which the process runs.
    pub working_directory: String,
    /// The interpreter's path, the file and its arguments, joined by spaces.
    pub exec_command: String,
    /// Whether the unit is restarted.
    pub restart_policy: RestartPolicy,
    /// The `key=value` pairs of the environment, in the order given.
    pub environment: Vec<String>,
    /// The identity under which the process runs.
    pub owner_user: String,
}

/// A descriptor as plain sequences of characters.
pub struct DescriptorView {
    pub service_name: Seq<char>,
    pub working_directory: Seq<char>,
    pub exec_command: Seq<char>,
    pub restart_policy: RestartPolicy,
    pub environment: Seq<Seq<char>>,
    pub owner_user: Seq<char>,
}

impl View for ServiceDescriptor {
    type V = DescriptorView;

    open spec fn view(&self) -> DescriptorView {
        DescriptorView {
            service_name: self.service_name@,
            working_directory: self.working_directory@,
            exec_command: self.exec_command@,
            restart_policy: self.restart_policy,
            environment: strs_view(self.environment@),
            owner_user: self.owner_user@,
        }
    }
}

/// The index of the last `.` of a file name, or -1 where it has none.
pub open spec fn last_dot(file_name: Seq<char>) -> int
    decreases file_name.len(),
{
    if file_name.len() == 0 {
        -1
    } else if file_name.last() == '.' {
        file_name.len() - 1
    } else {
        last_dot(file_name.drop_last())
    }
}

/// The extension of a file name: what follows its last `.`, unless the name
/// has no `.` or only the one it starts with.
pub open spec fn extension_of(file_name: Seq<char>) -> Option<Seq<char>> {
    if last_dot(file_name) <= 0 {
        None
    } else {
        Some(file_name.subrange(last_dot(file_name) + 1, file_name.len() as int))
    }
}

/// The interpreter that runs files of an extension by default.
pub open spec fn default_interpreter(extension: Seq<char>) -> Option<Seq<char>> {
    if extension == "js"@ {
        Some("node"@)
    } else if extension == "py"@ {
        Some("python3"@)
    } else {
        None
    }
}

/// The interpreter for a file with the given extension: none for a file
/// without extension, which is run as it is; an error for an extension that
/// has no interpreter by default.
pub open spec fn interpreter_for(extension: Option<Seq<char>>) -> Result<
    Option<Seq<char>>,
    DescriptorError,
> {
    match extension {
        None => Ok(None),
        Some(e) => match default_interpreter(e) {
            Some(name) => Ok(Some(name)),
            None => Err(DescriptorError::UnknownInterpreter),
        },
    }
}

/// The interpreter that a file is run with: the one the caller chose, else
/// the default for the file's extension.
pub open spec fn chosen_interpreter(custom: Option<Seq<char>>, file_name: Seq<char>) -> Result<
    Option<Seq<char>>,
    DescriptorError,
> {
    match custom {
        Some(name) => Ok(Some(name)),
        None => interpreter_for(extension_of(file_name)),
    }
}

/// The characters of an optional owned string.
pub open spec fn opt_string_view(s: Option<String>) -> Option<Seq<char>> {
    match s {
        Some(t) => Some(t@),
        None => None,
    }
}

/// The characters of what interpreter resolution returned.
pub open spec fn choice_view(r: Result<Option<String>, DescriptorError>) -> Result<
    Option<Seq<char>>,
    DescriptorError,
> {
    match r {
        Ok(name) => Ok(opt_string_view(name)),
        Err(e) => Err(e),
    }
}

/// `head` followed by each argument, every one behind a single space.
pub open spec fn with_args(head: Seq<char>, args: Seq<Seq<char>>) -> Seq<char>
    decreases args.len(),
{
    if args.len() == 0 {
        head
    } else {
        with_args(head, args.drop_last()) + seq![' '] + args.last()
    }
}

/// The command that the unit executes: the interpreter's path where there is
/// one, the file, and the arguments in the order given.
pub open spec fn exec_line(
    interpreter_path: Option<Seq<char>>,
    file_name: Seq<char>,
    args: Seq<Seq<char>>,
) -> Seq<char> {
    match interpreter_path {
        Some(path) => with_args(path + seq![' '] + file_name, args),
        None => with_args(file_name, args),
    }
}

/// One `Environment=` line per pair, in the order given, with a line break
/// between two of them.
pub open spec fn environment_block(pairs: Seq<Seq<char>>) -> Seq<char>
    decreases pairs.len(),
{
    if pairs.len() == 0 {
        Seq::empty()
    } else if pairs.len() == 1 {
        "Environment="@ + pairs[0]
    } else {
        environment_block(pairs.drop_last()) + seq!['\n'] + "Environment="@ + pairs.last()
    }
}

/// The restart directive: present only for a unit that is always restarted.
pub open spec fn restart_directive(policy: RestartPolicy) -> Seq<char> {
    match policy {
        RestartPolicy::Always => "Restart=always"@,
        RestartPolicy::Never => Seq::empty(),
    }
}

/// The text of a unit file up to the line break behind `ExecStart`: the
/// header that names the generator, the unit section, and the service
/// section as far as the command.
pub open spec fn rendered_head(d: DescriptorView) -> Seq<char> {
    "# Generated with Servicer\n[Unit]\nDescription=Servicer:"@ + d.service_name
        + "\nAfter=network.target\n\n[Service]\nType=simple\nUser="@ + d.owner_user
        + "\n\nWorkingDirectory="@ + d.working_directory + "\nExecStart="@ + d.exec_command
        + seq!['\n']
}

/// The text of a unit file behind the restart directive: the environment
/// block on a line of its own, and the install section.
pub open spec fn rendered_tail(d: DescriptorView) -> Seq<char> {
    seq!['\n'] + environment_block(d.environment)
        + "\n\n[Install]\nWantedBy=multi-user.target\n"@
}

/// The text of the unit file for a descriptor.
///
/// The restart directive and the environment block each have a line of
/// their own behind `ExecStart`, which stays empty where there is nothing to
/// say.
pub open spec fn rendered(d: DescriptorView) -> Seq<char> {
    rendered_head(d) + restart_directive(d.restart_policy) + rendered_tail(d)
}

/// Rendering is a function of what the descriptor holds: two descriptors
/// with the same contents have the same text, character for character.
pub proof fn lemma_render_deterministic(a: ServiceDescriptor, b: ServiceDescriptor)
    requires
        a@ == b@,
    ensures
        rendered(a@) == rendered(b@),
{
}

/// The text of a unit that is never restarted holds no restart directive:
/// the line behind `ExecStart` is empty. The text of a unit that is always
/// restarted differs from it by the directive on that line and nothing
/// else.
pub proof fn lemma_restart_directive(d: DescriptorView)
    ensures
        d.restart_policy == RestartPolicy::Never ==> rendered(d) == rendered_head(d)
            + rendered_tail(d),
        d.restart_policy == RestartPolicy::Always ==> rendered(d) == rendered_head(d)
            + "Restart=always"@ + rendered_tail(d),
{
    assert(rendered_head(d) + Seq::<char>::empty() =~= rendered_head(d));
}

/// A file whose extension has no interpreter by default gets none unless
/// the caller names one; with a name given, or without extension, the
/// choice never fails.
pub proof fn lemma_unmapped_extension(custom: Option<Seq<char>>, file_name: Seq<char>)
    ensures
        custom is None && extension_of(file_name) is Some && default_interpreter(
            extension_of(file_name)->Some_0,
        ) is None ==> chosen_interpreter(custom, file_name) == Err::<
            Option<Seq<char>>,
            DescriptorError,
        >(DescriptorError::UnknownInterpreter),
        custom is Some || extension_of(file_name) is None ==> chosen_interpreter(
            custom,
            file_name,
        ) is Ok,
{
}

/// The descriptor of a service from its parts.
pub open spec fn described(
    service_name: Seq<char>,
    working_directory: Seq<char>,
    auto_restart: bool,
    interpreter_path: Option<Seq<char>>,
    environment: Seq<Seq<char>>,
    internal_args: Seq<Seq<char>>,
    file_name: Seq<char>,
    owner_user: Seq<char>,
) -> DescriptorView {
    DescriptorView {
        service_name,
        working_directory,
        exec_command: exec_line(interpreter_path, file_name, internal_args),
        restart_policy: if auto_restart {
            RestartPolicy::Always
        } else {
            RestartPolicy::Never
        },
        environment,
        owner_user,
    }
}

/// The index of the last `.` of `name`, with the length of `name` standing
/// for "none".
fn find_last_dot(name: &Vec<char>) -> (at: usize)
    ensures
        at <= name.len(),
        at < name.len() ==> last_dot(name@) == at,
        at == name.len() ==> last_dot(name@) == -1,
{
    let mut i: usize = name.len();
    assert(name@.take(i as int) =~= name@);
    while i > 0
        invariant
            i <= name.len(),
            last_dot(name@) == last_dot(name@.take(i as int)),
        decreases i,
    {
        if name[i - 1] == '.' {
            return i - 1;
        }
        assert(name@.take(i as int).drop_last() =~= name@.take(i - 1));
        i -= 1;
    }
    name.len()
}

/// The extension of a file name, as `extension_of` defines it.
pub fn file_extension(file_name: &str) -> (ext: Option<String>)
    ensures
        opt_string_view(ext) == extension_of(file_name@),
{
    let name = chars_of(file_name);
    let dot = find_last_dot(&name);
    if dot == 0 || dot >= name.len() {
        None
    } else {
        let ext = copy_range(&name, dot + 1, name.len());
        Some(string_of(&ext))
    }
}

/// Finds the interpreter needed to execute a file with the given extension.
///
/// A file without extension needs none. `js` is run by `node` and `py` by
/// `python3`; any other extension is refused.
pub fn get_interpreter(extension: Option<&str>) -> (r: Result<Option<String>, DescriptorError>)
    ensures
        choice_view(r) == interpreter_for(opt_view(extension)),
{
    match extension {
        None => Ok(None),
        Some(e) => {
            if same_chars(e, "js") {
                Ok(Some(owned("node")))
            } else if same_chars(e, "py") {
                Ok(Some(owned("python3")))
            } else {
                Err(DescriptorError::UnknownInterpreter)
            }
        },
    }
}

/// Resolves the interpreter of a file: the caller's choice, else the default
/// for the file's extension.
pub fn choose_interpreter(custom_interpreter: Option<&str>, file_name: &str) -> (r: Result<
    Option<String>,
    DescriptorError,
>)
    ensures
        choice_view(r) == chosen_interpreter(
            opt_view(custom_interpreter),
            file_name@,
        ),
{
    match custom_interpreter {
        Some(name) => Ok(Some(owned(name))),
        None => {
            let ext = file_extension(file_name);
            match &ext {
                Some(e) => get_interpreter(Some(e.as_str())),
                None => get_interpreter(None),
            }
        },
    }
}

/// Builds the command that the unit executes.
pub fn build_exec_command(
    interpreter_path: Option<&str>,
    file_name: &str,
    internal_args: &Vec<String>,
) -> (line: String)
    ensures
        line@ == exec_line(
            opt_view(interpreter_path),
            file_name@,
            strs_view(internal_args@),
        ),
{
    let mut out: Vec<char> = Vec::new();
    match interpreter_path {
        Some(path) => {
            append_chars(&mut out, path);
            out.push(' ');
            append_chars(&mut out, file_name);
            assert(out@ =~= path@ + seq![' '] + file_name@);
        },
        None => {
            append_chars(&mut out, file_name);
            assert(out@ =~= file_name@);
        },
    }
    let ghost head = out@;
    let ghost args = strs_view(internal_args@);
    let mut i: usize = 0;
    assert(args.take(0) =~= Seq::<Seq<char>>::empty());
    while i < internal_args.len()
        invariant
            i <= internal_args.len(),
            args == strs_view(internal_args@),
            out@ == with_args(head, args.take(i as int)),
        decreases internal_args.len() - i,
    {
        out.push(' ');
        append_chars(&mut out, internal_args[i].as_str());
        proof {
            let next = args.take(i + 1);
            assert(next.drop_last() =~= args.take(i as int));
            assert(next.last() == internal_args@[i as int]@);
            assert(out@ =~= with_args(head, args.take(i as int)) + seq![' '] + next.last());
        }
        i += 1;
    }
    assert(args.take(args.len() as int) =~= args);
    string_of(&out)
}

/// Renders the unit file of a descriptor.
///
/// The text depends on the descriptor alone: equal descriptors give equal
/// text, character for character.
pub fn render(descriptor: &ServiceDescriptor) -> (text: String)
    ensures
        text@ == rendered(descriptor@),
{
    let mut out: Vec<char> = Vec::new();
    append_chars(&mut out, "# Generated with Servicer\n[Unit]\nDescription=Servicer:");
    append_chars(&mut out, descriptor.service_name.as_str());
    append_chars(&mut out, "\nAfter=network.target\n\n[Service]\nType=simple\nUser=");
    append_chars(&mut out, descriptor.owner_user.as_str());
    append_chars(&mut out, "\n\nWorkingDirectory=");
    append_chars(&mut out, descriptor.working_directory.as_str());
    append_chars(&mut out, "\nExecStart=");
    append_chars(&mut out, descriptor.exec_command.as_str());
    out.push('\n');
    match descriptor.restart_policy {
        RestartPolicy::Always => {
            append_chars(&mut out, "Restart=always");
        },
        RestartPolicy::Never => {},
    }
    out.push('\n');
    let ghost head = out@;
    let ghost pairs = strs_view(descriptor.environment@);
    assert(head =~= rendered_head(descriptor@) + restart_directive(descriptor.restart_policy)
        + seq!['\n']);
    let mut i: usize = 0;
    assert(pairs.take(0) =~= Seq::<Seq<char>>::empty());
    assert(out@ =~= head + environment_block(pairs.take(0)));
    while i < descriptor.environment.len()
        invariant
            i <= descriptor.environment.len(),
            pairs == strs_view(descriptor.environment@),
            out@ == head + environment_block(pairs.take(i as int)),
        decreases descriptor.environment.len() - i,
    {
        if i > 0 {
            out.push('\n');
        }
        append_chars(&mut out, "Environment=");
        append_chars(&mut out, descriptor.environment[i].as_str());
        proof {
            let next = pairs.take(i + 1);
            assert(next.drop_last() =~= pairs.take(i as int));
            assert(next.last() == descriptor.environment@[i as int]@);
            assert(out@ =~= head + environment_block(next));
        }
        i += 1;
    }
    assert(pairs.take(pairs.len() as int) =~= pairs);
    append_chars(&mut out, "\n\n[Install]\nWantedBy=multi-user.target\n");
    assert(out@ =~= rendered(descriptor@));
    string_of(&out)
}

/// The environment that the caller gave: no pair where nothing was given.
pub open spec fn environment_of(env_vars: Option<Seq<char>>) -> Seq<Seq<char>> {
    match env_vars {
        Some(vars) => words(vars),
        None => Seq::empty(),
    }
}

/// Searches the caller's search path for the executable of an interpreter,
/// by `which::which`.
///
/// What the search finds depends on the search path and on the disk at the
/// time of the call, so nothing is claimed of the result. `None` stands for an
/// interpreter that was not found, or whose path is no valid text.
#[verifier::external_body]
pub(crate) fn locate_executable(interpreter: &str) -> (path: Option<String>) {
    match which::which(interpreter) {
        Ok(found) => found.into_os_string().into_string().ok(),
        Err(_) => None,
    }
}

/// The text of the unit file of a service, or the reason why there is none,
/// once the interpreter's executable has been searched for.
pub open spec fn service_file(
    service_name: Seq<char>,
    working_directory: Seq<char>,
    auto_restart: bool,
    interpreter: Option<Seq<char>>,
    located: Option<Seq<char>>,
    env_vars: Option<Seq<char>>,
    internal_args: Seq<Seq<char>>,
    file_name: Seq<char>,
    owner_user: Seq<char>,
) -> Result<Seq<char>, DescriptorError> {
    if interpreter is Some && located is None {
        Err(DescriptorError::InterpreterNotFound)
    } else {
        Ok(
            rendered(
                described(
                    service_name,
                    working_directory,
                    auto_restart,
                    if interpreter is Some {
                        located
                    } else {
                        None
                    },
                    environment_of(env_vars),
                    internal_args,
                    file_name,
                    owner_user,
                ),
            ),
        )
    }
}

/// The characters of a text, or the error in its place.
pub open spec fn text_view(r: Result<String, DescriptorError>) -> Result<
    Seq<char>,
    DescriptorError,
> {
    match r {
        Ok(text) => Ok(text@),
        Err(e) => Err(e),
    }
}

/// Assembles the descriptor of a service from its parts.
///
/// `interpreter_path` is the executable that runs the file; without one the
/// file is executed as it is.
pub fn describe_service(
    service_name: &str,
    working_directory: &str,
    auto_restart: bool,
    interpreter_path: Option<&str>,
    environment: Vec<String>,
    internal_args: &Vec<String>,
    file_name: &str,
    owner_user: &str,
) -> (d: ServiceDescriptor)
    ensures
        d@ == described(
            service_name@,
            working_directory@,
            auto_restart,
            opt_view(interpreter_path),
            strs_view(environment@),
            strs_view(internal_args@),
            file_name@,
            owner_user@,
        ),
{
    ServiceDescriptor {
        service_name: owned(service_name),
        working_directory: owned(working_directory),
        exec_command: build_exec_command(interpreter_path, file_name, internal_args),
        restart_policy: if auto_restart {
            RestartPolicy::Always
        } else {
            RestartPolicy::Never
        },
        environment,
        owner_user: owned(owner_user),
    }
}

/// Renders the unit file of a service once the search for the interpreter's
/// executable has given `located`.
///
/// A service with an interpreter whose executable was not found gets no
/// text. A service without interpreter ignores `located`.
pub fn service_file_text(
    service_name: &str,
    working_directory: &str,
    auto_restart: bool,
    interpreter: Option<&str>,
    located: Option<&str>,
    env_vars: Option<&str>,
    internal_args: &Vec<String>,
    file_name: &str,
    owner_user: &str,
) -> (r: Result<String, DescriptorError>)
    ensures
        text_view(r) == service_file(
            service_name@,
            working_directory@,
            auto_restart,
            opt_view(interpreter),
            opt_view(located),
            opt_view(env_vars),
            strs_view(internal_args@),
            file_name@,
            owner_user@,
        ),
{
    let path: Option<&str> = match interpreter {
        Some(_) => match located {
            Some(p) => Some(p),
            None => {
                return Err(DescriptorError::InterpreterNotFound);
            },
        },
        None => None,
    };
    let environment: Vec<String> = match env_vars {
        Some(vars) => split_words(vars),
        None => Vec::new(),
    };
    assert(strs_view(environment@) =~= environment_of(opt_view(env_vars)));
    let descriptor = describe_service(
        service_name,
        working_directory,
        auto_restart,
        path,
        environment,
        internal_args,
        file_name,
        owner_user,
    );
    Ok(render(&descriptor))
}

/// Creates the text of the unit file of a service.
///
/// Where the service has an interpreter, its executable is searched for on
/// the caller's search path, and the text names the executable by the path
/// that the search gave. The unit runs as `owner_user`.
pub fn create_service_file(
    service_name: &str,
    working_directory: &str,
    auto_restart: bool,
    interpreter: Option<&str>,
    env_vars: Option<&str>,
    internal_args: &Vec<String>,
    file_name: &str,
    owner_user: &str,
) -> (r: Result<String, DescriptorError>)
    ensures
        exists|located: Option<Seq<char>>|
            text_view(r) == #[trigger] service_file(
                service_name@,
                working_directory@,
                auto_restart,
                opt_view(interpreter),
                located,
                opt_view(env_vars),
                strs_view(internal_args@),
                file_name@,
                owner_user@,
            ),
        interpreter is None ==> r is Ok,
{
    let found: Option<String> = match interpreter {
        Some(name) => locate_executable(name),
        None => None,
    };
    let located: Option<&str> = match &found {
        Some(p) => Some(p.as_str()),
        None => None,
    };
    service_file_text(
        service_name,
        working_directory,
        auto_restart,
        interpreter,
        located,
        env_vars,
        internal_args,
        file_name,
        owner_user,
    )
}

} // verus!
