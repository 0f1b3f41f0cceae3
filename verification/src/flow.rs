//! The flows that combine names, descriptors and the control plane.
//!
//! Nothing here touches the host. What a flow needs to know of it (whether a
//! file is there, which directory it lies in, who called) is given to it, and
//! what is to be done on it comes back as a plan.
use vstd::prelude::*;
use crate::control::{
    enable_service,
    main_pid_from_reply,
    pid_of_reply,
    replace_mode,
    start_service,
    state_from_reply,
    state_of_reply,
    BusFailure,
    CallView,
    ControlError,
    ManagerCall,
};
use crate::descriptor::{
    choose_interpreter,
    chosen_interpreter,
    default_interpreter,
    extension_of,
    locate_executable,
    opt_string_view,
    service_file,
    service_file_text,
};
use crate::names::{
    descriptor_dir,
    file_name_of,
    last_segment,
    normalize,
    normalized,
    opt_view,
    unit_suffix,
};
use crate::text::{owned, same_chars, strs_view};

verus! {

/// Why no service was created.
#[derive(Debug, Clone, Copy, PartialEq, Eq, Structural)]
pub enum CreateError {
    /// The path names no file, or the unit's name would be empty.
    InvalidInput,
    /// A descriptor for the unit is already installed.
    AlreadyExists,
    /// No interpreter was given and the file's extension has none by default.
    UnknownInterpreter,
    /// The interpreter has no executable on the search path.
    InterpreterNotFound,
}

/// What a creation needs to know of the host.
#[derive(Debug)]
pub struct HostFacts {
    /// Whether the path names a regular file.
    pub is_file: bool,
    /// Whether a descriptor is installed under the unit's name.
    pub descriptor_exists: bool,
    /// The absolute directory that holds the file.
    pub working_directory: String,
    /// The unprivileged identity on whose behalf the service is created.
    pub owner_user: String,
}

/// What is to be done to create a service.
#[derive(Debug)]
pub struct CreationPlan {
    /// The name of the unit.
    pub full_service_name: String,
    /// Where the descriptor is to be written.
    pub descriptor_path: String,
    /// The text of the descriptor.
    pub descriptor_text: String,
    /// The calls to make once the descriptor is written, in order.
    pub calls: Vec<ManagerCall>,
}

/// A creation plan over plain characters.
pub struct PlanView {
    pub full_service_name: Seq<char>,
    pub descriptor_path: Seq<char>,
    pub descriptor_text: Seq<char>,
    pub calls: Seq<CallView>,
}

/// The views of a list of calls.
pub open spec fn calls_view(calls: Seq<ManagerCall>) -> Seq<CallView> {
    Seq::new(calls.len(), |i: int| calls[i]@)
}

impl View for CreationPlan {
    type V = PlanView;

    open spec fn view(&self) -> PlanView {
        PlanView {
            full_service_name: self.full_service_name@,
            descriptor_path: self.descriptor_path@,
            descriptor_text: self.descriptor_text@,
            calls: calls_view(self.calls@),
        }
    }
}

/// The plan of a creation, or the error in its place, over plain characters.
pub open spec fn plan_view(r: Result<CreationPlan, CreateError>) -> Result<PlanView, CreateError> {
    match r {
        Ok(plan) => Ok(plan@),
        Err(e) => Err(e),
    }
}

/// The calls that follow the writing of a descriptor: a start where one was
/// asked for, then an enable where one was asked for.
pub open spec fn follow_up(full_service_name: Seq<char>, start: bool, enable: bool) -> Seq<
    CallView,
> {
    let starts = if start {
        seq![CallView::StartUnit { name: full_service_name, mode: replace_mode() }]
    } else {
        Seq::empty()
    };
    let enables = if enable {
        seq![
            CallView::EnableUnitFiles {
                files: seq![full_service_name],
                runtime: false,
                force: true,
            },
        ]
    } else {
        Seq::empty()
    };
    starts + enables
}

/// What the creation of a service comes to, once the interpreter's
/// executable has been searched for.
///
/// The checks come in this order: the path must name a file, the unit's
/// name must not be empty, no descriptor may be installed under it, an
/// interpreter must be known for the file, and its executable must have been
/// found. The unit is displayed under the base of its name and executes the
/// final segment of the path.
pub open spec fn creation(
    path: Seq<char>,
    custom_name: Option<Seq<char>>,
    start: bool,
    enable: bool,
    auto_restart: bool,
    custom_interpreter: Option<Seq<char>>,
    env_vars: Option<Seq<char>>,
    internal_args: Seq<Seq<char>>,
    is_file: bool,
    descriptor_exists: bool,
    working_directory: Seq<char>,
    owner_user: Seq<char>,
    located: Option<Seq<char>>,
) -> Result<PlanView, CreateError> {
    if !is_file {
        Err(CreateError::InvalidInput)
    } else {
        match normalized(path, custom_name) {
            None => Err(CreateError::InvalidInput),
            Some(full) => if descriptor_exists {
                Err(CreateError::AlreadyExists)
            } else {
                match chosen_interpreter(custom_interpreter, last_segment(path)) {
                    Err(_) => Err(CreateError::UnknownInterpreter),
                    Ok(interpreter) => match service_file(
                        full.take(full.len() - unit_suffix().len()),
                        working_directory,
                        auto_restart,
                        interpreter,
                        located,
                        env_vars,
                        internal_args,
                        last_segment(path),
                        owner_user,
                    ) {
                        Err(_) => Err(CreateError::InterpreterNotFound),
                        Ok(text) => Ok(
                            PlanView {
                                full_service_name: full,
                                descriptor_path: descriptor_dir() + full,
                                descriptor_text: text,
                                calls: follow_up(full, start, enable),
                            },
                        ),
                    },
                }
            },
        }
    }
}

/// Creation fails with `UnknownInterpreter`, whatever the search for an
/// executable would give, for a file whose extension has no interpreter by
/// default where the caller names none, the path names a file, the unit's
/// name is not empty and no descriptor is installed.
pub proof fn lemma_creation_unknown_interpreter(
    path: Seq<char>,
    custom_name: Option<Seq<char>>,
    start: bool,
    enable: bool,
    auto_restart: bool,
    env_vars: Option<Seq<char>>,
    internal_args: Seq<Seq<char>>,
    working_directory: Seq<char>,
    owner_user: Seq<char>,
    located: Option<Seq<char>>,
)
    requires
        normalized(path, custom_name) is Some,
        extension_of(last_segment(path)) is Some,
        default_interpreter(
            extension_of(last_segment(path))->Some_0,
        ) is None,
    ensures
        creation(
            path,
            custom_name,
            start,
            enable,
            auto_restart,
            None,
            env_vars,
            internal_args,
            true,
            false,
            working_directory,
            owner_user,
            located,
        ) == Err::<PlanView, CreateError>(CreateError::UnknownInterpreter),
{
}

fn as_opt_str(s: &Option<String>) -> (r: Option<&str>)
    ensures
        opt_view(r) == opt_string_view(*s),
{
    match s {
        Some(t) => Some(t.as_str()),
        None => None,
    }
}

/// Plans the creation of a service once the search for the interpreter's
/// executable has given `located`.
pub fn plan_creation(
    path: &str,
    custom_name: Option<&str>,
    start: bool,
    enable: bool,
    auto_restart: bool,
    custom_interpreter: Option<&str>,
    env_vars: Option<&str>,
    internal_args: &Vec<String>,
    host: &HostFacts,
    located: Option<&str>,
) -> (r: Result<CreationPlan, CreateError>)
    ensures
        plan_view(r) == creation(
            path@,
            opt_view(custom_name),
            start,
            enable,
            auto_restart,
            opt_view(custom_interpreter),
            opt_view(env_vars),
            strs_view(internal_args@),
            host.is_file,
            host.descriptor_exists,
            host.working_directory@,
            host.owner_user@,
            opt_view(located),
        ),
{
    if !host.is_file {
        return Err(CreateError::InvalidInput);
    }
    let unit = match normalize(path, custom_name) {
        Ok(unit) => unit,
        Err(_) => {
            return Err(CreateError::InvalidInput);
        },
    };
    if host.descriptor_exists {
        return Err(CreateError::AlreadyExists);
    }
    let file_name = file_name_of(path);
    let interpreter = match choose_interpreter(custom_interpreter, file_name.as_str()) {
        Ok(interpreter) => interpreter,
        Err(_) => {
            return Err(CreateError::UnknownInterpreter);
        },
    };
    let service_name = unit.base_name();
    let text = match service_file_text(
        service_name.as_str(),
        host.working_directory.as_str(),
        auto_restart,
        as_opt_str(&interpreter),
        located,
        env_vars,
        internal_args,
        file_name.as_str(),
        host.owner_user.as_str(),
    ) {
        Ok(text) => text,
        Err(_) => {
            return Err(CreateError::InterpreterNotFound);
        },
    };
    let mut calls: Vec<ManagerCall> = Vec::new();
    if start {
        calls.push(start_service(unit.as_str()));
    }
    if enable {
        calls.push(enable_service(unit.as_str()));
    }
    assert(calls_view(calls@) =~= follow_up(unit@, start, enable));
    Ok(
        CreationPlan {
            full_service_name: owned(unit.as_str()),
            descriptor_path: unit.descriptor_path(),
            descriptor_text: text,
            calls,
        },
    )
}

/// Plans the creation of a service for the file at `path`.
///
/// Where the file is run by an interpreter, the interpreter's executable is
/// searched for on the caller's search path; the plan is the one that
/// `creation` gives for what the search found. No search is made for a path
/// that names no file, nor where a descriptor is already installed. Nothing is written and
/// nothing is asked of the daemon: the plan says what to write and which
/// calls to make.
pub fn handle_create_service(
    path: &str,
    custom_name: Option<&str>,
    start: bool,
    enable: bool,
    auto_restart: bool,
    custom_interpreter: Option<&str>,
    env_vars: Option<&str>,
    internal_args: &Vec<String>,
    host: &HostFacts,
) -> (r: Result<CreationPlan, CreateError>)
    ensures
        exists|located: Option<Seq<char>>|
            plan_view(r) == #[trigger] creation(
                path@,
                opt_view(custom_name),
                start,
                enable,
                auto_restart,
                opt_view(custom_interpreter),
                opt_view(env_vars),
                strs_view(internal_args@),
                host.is_file,
                host.descriptor_exists,
                host.working_directory@,
                host.owner_user@,
                located,
            ),
{
    let found: Option<String> = if host.is_file && !host.descriptor_exists {
        let file_name = file_name_of(path);
        match choose_interpreter(custom_interpreter, file_name.as_str()) {
            Ok(Some(name)) => locate_executable(name.as_str()),
            _ => None,
        }
    } else {
        None
    };
    plan_creation(
        path,
        custom_name,
        start,
        enable,
        auto_restart,
        custom_interpreter,
        env_vars,
        internal_args,
        host,
        as_opt_str(&found),
    )
}

/// Whether a load state says that the daemon has no such unit.
pub open spec fn is_absent_state(load_state: Seq<char>) -> bool {
    load_state == "invalid-unit-path"@ || load_state == "not-found"@
}

/// Whether an active state says that the unit is in use.
pub open spec fn is_running_state(active_state: Seq<char>) -> bool {
    active_state == "active"@ || active_state == "reloading"@
}

/// Whether a load state says that the daemon has no such unit.
pub fn unit_is_absent(load_state: &str) -> (b: bool)
    ensures
        b == is_absent_state(load_state@),
{
    same_chars(load_state, "invalid-unit-path") || same_chars(load_state, "not-found")
}

/// Whether an active state says that the unit is in use.
pub fn unit_is_running(active_state: &str) -> (b: bool)
    ensures
        b == is_running_state(active_state@),
{
    same_chars(active_state, "active") || same_chars(active_state, "reloading")
}

/// What to do with the descriptor of a unit that is created again.
#[derive(Debug, Clone, Copy, PartialEq, Eq, Structural)]
pub enum Overwrite {
    /// The unit is in use and the caller did not force: nothing is done.
    Refuse,
    /// The descriptor is written.
    Write,
    /// The descriptor that is installed stays.
    Keep,
}

/// Decides what to do with the descriptor of a unit that is created again:
/// a unit in use is only touched by force, and an installed descriptor is
/// only replaced by force.
pub fn decide_overwrite(active_state: &str, force: bool, descriptor_exists: bool) -> (d: Overwrite)
    ensures
        d == if is_running_state(active_state@) && !force {
            Overwrite::Refuse
        } else if !descriptor_exists || force {
            Overwrite::Write
        } else {
            Overwrite::Keep
        },
{
    if unit_is_running(active_state) && !force {
        Overwrite::Refuse
    } else if !descriptor_exists || force {
        Overwrite::Write
    } else {
        Overwrite::Keep
    }
}

/// What the daemon said of a unit at one moment.
#[derive(Debug)]
pub struct UnitStateSnapshot {
    /// Whether the daemon has parsed the unit's descriptor.
    pub load_state: String,
    /// The unit's runtime status.
    pub active_state: String,
    /// Whether the unit is started at boot.
    pub unit_file_state: String,
    /// The unit's main process, where it has one.
    pub main_pid: Option<u32>,
}

/// The snapshot for four replies, or `None` where the transport failed on
/// any of them.
pub open spec fn snapshot_ok(
    load: Result<String, BusFailure>,
    active: Result<String, BusFailure>,
    file: Result<String, BusFailure>,
    pid: Result<u32, BusFailure>,
    r: Result<UnitStateSnapshot, ControlError>,
) -> bool {
    if state_of_reply(load) is Ok && state_of_reply(active) is Ok && state_of_reply(file) is Ok
        && pid_of_reply(pid) is Ok {
        &&& r is Ok
        &&& r->Ok_0.load_state@ == state_of_reply(load)->Ok_0
        &&& r->Ok_0.active_state@ == state_of_reply(active)->Ok_0
        &&& r->Ok_0.unit_file_state@ == state_of_reply(file)->Ok_0
        &&& r->Ok_0.main_pid == pid_of_reply(pid)->Ok_0
    } else {
        r == Err::<UnitStateSnapshot, ControlError>(ControlError::TransportError)
    }
}

/// Puts the replies to the four reads of a unit together.
///
/// A unit that is not there has the state `invalid-unit-path` throughout
/// and no main process; a failure of the transport on any read is an error.
pub fn snapshot_from_replies(
    load: Result<String, BusFailure>,
    active: Result<String, BusFailure>,
    file: Result<String, BusFailure>,
    pid: Result<u32, BusFailure>,
) -> (r: Result<UnitStateSnapshot, ControlError>)
    ensures
        snapshot_ok(load, active, file, pid, r),
{
    let load_state = match state_from_reply(load) {
        Ok(s) => s,
        Err(_) => {
            return Err(ControlError::TransportError);
        },
    };
    let active_state = match state_from_reply(active) {
        Ok(s) => s,
        Err(_) => {
            return Err(ControlError::TransportError);
        },
    };
    let unit_file_state = match state_from_reply(file) {
        Ok(s) => s,
        Err(_) => {
            return Err(ControlError::TransportError);
        },
    };
    let main_pid = match main_pid_from_reply(pid) {
        Ok(p) => p,
        Err(_) => {
            return Err(ControlError::TransportError);
        },
    };
    Ok(UnitStateSnapshot { load_state, active_state, unit_file_state, main_pid })
}

} // verus!
