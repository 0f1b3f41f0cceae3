//! The control-plane client: what to ask of the init daemon, and how to read
//! what it answers.
//!
//! The bus itself is not reached from here. Each operation is split in two:
//! one function says which call to make, the caller makes it, and a second
//! function turns the reply into the operation's result.
use vstd::prelude::*;
use crate::escape::{get_unit_path, unit_path_seq};
use crate::object_path::{accepts_object_path, is_addressable, is_object_path, lemma_unit_path_addressable};
use crate::text::{owned, same_chars, strs_view};

verus! {

/// The state reported for a unit that cannot be addressed.
pub open spec fn invalid_unit_path() -> Seq<char> {
    "invalid-unit-path"@
}

/// The job mode of every start, stop and reload.
pub open spec fn replace_mode() -> Seq<char> {
    "replace"@
}

/// A property of a unit that the client reads.
#[derive(Debug, Clone, Copy, PartialEq, Eq, Structural)]
pub enum UnitProperty {
    /// The unit's runtime status.
    ActiveState,
    /// Whether the daemon has parsed the unit's descriptor.
    LoadState,
    /// Whether the unit is started at boot.
    UnitFileState,
    /// The identifier of the unit's main process.
    MainPid,
}

/// The bus interface that holds a property.
pub open spec fn interface_of(property: UnitProperty) -> Seq<char> {
    match property {
        UnitProperty::MainPid => "org.freedesktop.systemd1.Service"@,
        _ => "org.freedesktop.systemd1.Unit"@,
    }
}

/// The name of a property on the bus.
pub open spec fn member_of(property: UnitProperty) -> Seq<char> {
    match property {
        UnitProperty::ActiveState => "ActiveState"@,
        UnitProperty::LoadState => "LoadState"@,
        UnitProperty::UnitFileState => "UnitFileState"@,
        UnitProperty::MainPid => "MainPID"@,
    }
}

/// A read of one property of one object.
#[derive(Debug)]
pub struct PropertyRead {
    /// The object path of the unit.
    pub path: String,
    /// The interface that holds the property.
    pub interface: String,
    /// The property's name.
    pub property: String,
}

/// The first step of a query.
#[derive(Debug)]
pub enum QueryStep {
    /// The unit cannot be addressed: the query is answered without the bus.
    Unaddressable,
    /// The property is to be read from the bus.
    Read(PropertyRead),
}

/// Whether `step` is the first step of a query for `property` of the unit
/// `name`: a read at the unit's object path where the name can be
/// addressed, and no read where it cannot.
pub open spec fn query_step_ok(name: Seq<char>, property: UnitProperty, step: QueryStep) -> bool {
    match step {
        QueryStep::Unaddressable => !is_addressable(name),
        QueryStep::Read(read) => {
            &&& is_addressable(name)
            &&& is_object_path(read.path@)
            &&& read.path@ == unit_path_seq(name)
            &&& read.interface@ == interface_of(property)
            &&& read.property@ == member_of(property)
        },
    }
}

/// How a call on the bus failed.
#[derive(Debug)]
pub enum BusFailure {
    /// The bus answered with an error of the given name.
    Refused { error_name: String },
    /// No answer came: the bus is unreachable or the connection broke.
    Unreachable,
}

/// Why an operation of the client failed.
#[derive(Debug, Clone, Copy, PartialEq, Eq, Structural)]
pub enum ControlError {
    /// The bus is unreachable or refused the caller.
    TransportError,
    /// The daemon knows no unit of that name.
    UnitNotFound,
}

/// Whether an error of this name says that the addressed unit is not there.
pub open spec fn names_missing_unit(error_name: Seq<char>) -> bool {
    ||| error_name == "org.freedesktop.DBus.Error.UnknownObject"@
    ||| error_name == "org.freedesktop.systemd1.NoSuchUnit"@
}

/// Whether a failure says that the addressed unit is not there, as opposed
/// to a failure of the transport.
pub open spec fn is_address_failure(failure: BusFailure) -> bool {
    match failure {
        BusFailure::Refused { error_name } => names_missing_unit(error_name@),
        BusFailure::Unreachable => false,
    }
}

/// The result of a state query for a reply, over plain characters.
pub open spec fn state_of_reply(reply: Result<String, BusFailure>) -> Result<
    Seq<char>,
    ControlError,
> {
    match reply {
        Ok(state) => Ok(state@),
        Err(failure) => if is_address_failure(failure) {
            Ok(invalid_unit_path())
        } else {
            Err(ControlError::TransportError)
        },
    }
}

/// The main process for a reply: absent where the daemon reports none or the
/// unit is not there.
pub open spec fn pid_of_reply(reply: Result<u32, BusFailure>) -> Result<Option<u32>, ControlError> {
    match reply {
        Ok(pid) => if pid == 0 {
            Ok(None)
        } else {
            Ok(Some(pid))
        },
        Err(failure) => if is_address_failure(failure) {
            Ok(None)
        } else {
            Err(ControlError::TransportError)
        },
    }
}

/// The result of a start, stop or reload for a reply: the job that the
/// daemon queued.
pub open spec fn job_of_reply(reply: Result<String, BusFailure>) -> Result<
    Seq<char>,
    ControlError,
> {
    match reply {
        Ok(job) => Ok(job@),
        Err(failure) => Err(error_of_failure(failure)),
    }
}

/// The error that a failed command reports.
pub open spec fn error_of_failure(failure: BusFailure) -> ControlError {
    if is_address_failure(failure) {
        ControlError::UnitNotFound
    } else {
        ControlError::TransportError
    }
}

/// The characters of a state, or the error in its place.
pub open spec fn state_view(r: Result<String, ControlError>) -> Result<Seq<char>, ControlError> {
    match r {
        Ok(state) => Ok(state@),
        Err(e) => Err(e),
    }
}

/// A call on the manager object of the init daemon.
#[derive(Debug)]
pub enum ManagerCall {
    StartUnit { name: String, mode: String },
    StopUnit { name: String, mode: String },
    ReloadUnit { name: String, mode: String },
    EnableUnitFiles { files: Vec<String>, runtime: bool, force: bool },
    DisableUnitFiles { files: Vec<String>, runtime: bool },
}

/// A manager call over plain characters.
pub enum CallView {
    StartUnit { name: Seq<char>, mode: Seq<char> },
    StopUnit { name: Seq<char>, mode: Seq<char> },
    ReloadUnit { name: Seq<char>, mode: Seq<char> },
    EnableUnitFiles { files: Seq<Seq<char>>, runtime: bool, force: bool },
    DisableUnitFiles { files: Seq<Seq<char>>, runtime: bool },
}

impl View for ManagerCall {
    type V = CallView;

    open spec fn view(&self) -> CallView {
        match *self {
            ManagerCall::StartUnit { name, mode } => CallView::StartUnit {
                name: name@,
                mode: mode@,
            },
            ManagerCall::StopUnit { name, mode } => CallView::StopUnit { name: name@, mode: mode@ },
            ManagerCall::ReloadUnit { name, mode } => CallView::ReloadUnit {
                name: name@,
                mode: mode@,
            },
            ManagerCall::EnableUnitFiles { files, runtime, force } => CallView::EnableUnitFiles {
                files: strs_view(files@),
                runtime,
                force,
            },
            ManagerCall::DisableUnitFiles { files, runtime } => CallView::DisableUnitFiles {
                files: strs_view(files@),
                runtime,
            },
        }
    }
}

fn single(s: &str) -> (v: Vec<String>)
    ensures
        strs_view(v@) == seq![s@],
{
    let mut v: Vec<String> = Vec::new();
    v.push(owned(s));
    assert(strs_view(v@) =~= seq![s@]);
    v
}

/// The first step of reading `property` of the unit `full_service_name`:
/// the read to make, or nothing to read where the name does not escape to an
/// object path.
pub fn plan_query(full_service_name: &str, property: UnitProperty) -> (step: QueryStep)
    ensures
        query_step_ok(full_service_name@, property, step),
{
    let path = get_unit_path(full_service_name);
    proof {
        lemma_unit_path_addressable(full_service_name@);
    }
    if !accepts_object_path(path.as_str()) {
        return QueryStep::Unaddressable;
    }
    let interface = match property {
        UnitProperty::MainPid => owned("org.freedesktop.systemd1.Service"),
        _ => owned("org.freedesktop.systemd1.Unit"),
    };
    let member = match property {
        UnitProperty::ActiveState => owned("ActiveState"),
        UnitProperty::LoadState => owned("LoadState"),
        UnitProperty::UnitFileState => owned("UnitFileState"),
        UnitProperty::MainPid => owned("MainPID"),
    };
    QueryStep::Read(PropertyRead { path, interface, property: member })
}

/// The first step of reading the load state of a unit.
pub fn get_load_state(full_service_name: &str) -> (step: QueryStep)
    ensures
        query_step_ok(full_service_name@, UnitProperty::LoadState, step),
{
    plan_query(full_service_name, UnitProperty::LoadState)
}

/// The first step of reading the active state of a unit.
pub fn get_active_state(full_service_name: &str) -> (step: QueryStep)
    ensures
        query_step_ok(full_service_name@, UnitProperty::ActiveState, step),
{
    plan_query(full_service_name, UnitProperty::ActiveState)
}

/// The first step of reading the unit file state of a unit. A unit whose
/// state is `enabled` is started at every boot.
pub fn get_unit_file_state(full_service_name: &str) -> (step: QueryStep)
    ensures
        query_step_ok(full_service_name@, UnitProperty::UnitFileState, step),
{
    plan_query(full_service_name, UnitProperty::UnitFileState)
}

/// The first step of reading the main process of a service.
pub fn get_main_pid(full_service_name: &str) -> (step: QueryStep)
    ensures
        query_step_ok(full_service_name@, UnitProperty::MainPid, step),
{
    plan_query(full_service_name, UnitProperty::MainPid)
}

/// Whether a failure says that the addressed unit is not there.
pub fn address_failure(failure: &BusFailure) -> (b: bool)
    ensures
        b == is_address_failure(*failure),
{
    match failure {
        BusFailure::Refused { error_name } => {
            same_chars(error_name.as_str(), "org.freedesktop.DBus.Error.UnknownObject")
                || same_chars(error_name.as_str(), "org.freedesktop.systemd1.NoSuchUnit")
        },
        BusFailure::Unreachable => false,
    }
}

/// The state that a query without a read reports.
pub fn unaddressable_state() -> (state: String)
    ensures
        state@ == invalid_unit_path(),
{
    owned("invalid-unit-path")
}

/// Turns the reply to the read of a state into the state.
///
/// A unit that is not there has the state `invalid-unit-path`; a failure of
/// the transport is an error.
pub fn state_from_reply(reply: Result<String, BusFailure>) -> (r: Result<String, ControlError>)
    ensures
        state_view(r) == state_of_reply(reply),
{
    match reply {
        Ok(state) => Ok(state),
        Err(failure) => {
            if address_failure(&failure) {
                Ok(owned("invalid-unit-path"))
            } else {
                Err(ControlError::TransportError)
            }
        },
    }
}

/// Turns the reply to the read of the main process into the process, which
/// is absent where the daemon reports 0 or the unit is not there.
pub fn main_pid_from_reply(reply: Result<u32, BusFailure>) -> (r: Result<Option<u32>, ControlError>)
    ensures
        r == pid_of_reply(reply),
{
    match reply {
        Ok(pid) => {
            if pid == 0 {
                Ok(None)
            } else {
                Ok(Some(pid))
            }
        },
        Err(failure) => {
            if address_failure(&failure) {
                Ok(None)
            } else {
                Err(ControlError::TransportError)
            }
        },
    }
}

/// Turns the reply to a start, stop or reload into the queued job. That a
/// job was queued does not say that the unit has reached the state asked for.
pub fn job_from_reply(reply: Result<String, BusFailure>) -> (r: Result<String, ControlError>)
    ensures
        state_view(r) == job_of_reply(reply),
{
    match reply {
        Ok(job) => Ok(job),
        Err(failure) => {
            if address_failure(&failure) {
                Err(ControlError::UnitNotFound)
            } else {
                Err(ControlError::TransportError)
            }
        },
    }
}

/// Turns the reply to an enable or disable, given as the number of links
/// that the daemon changed, into whether anything changed.
pub fn changes_from_reply(reply: Result<usize, BusFailure>) -> (r: Result<bool, ControlError>)
    ensures
        r == match reply {
            Ok(n) => Ok::<bool, ControlError>(n > 0),
            Err(failure) => Err::<bool, ControlError>(error_of_failure(failure)),
        },
{
    match reply {
        Ok(n) => Ok(n > 0),
        Err(failure) => {
            if address_failure(&failure) {
                Err(ControlError::UnitNotFound)
            } else {
                Err(ControlError::TransportError)
            }
        },
    }
}

/// The call that starts a service, replacing any job queued for it.
pub fn start_service(full_service_name: &str) -> (call: ManagerCall)
    ensures
        call@ == (CallView::StartUnit { name: full_service_name@, mode: replace_mode() }),
{
    ManagerCall::StartUnit { name: owned(full_service_name), mode: owned("replace") }
}

/// The call that stops a service, replacing any job queued for it.
pub fn stop_service(full_service_name: &str) -> (call: ManagerCall)
    ensures
        call@ == (CallView::StopUnit { name: full_service_name@, mode: replace_mode() }),
{
    ManagerCall::StopUnit { name: owned(full_service_name), mode: owned("replace") }
}

/// The call that reloads a service, replacing any job queued for it.
pub fn reload_service(full_service_name: &str) -> (call: ManagerCall)
    ensures
        call@ == (CallView::ReloadUnit { name: full_service_name@, mode: replace_mode() }),
{
    ManagerCall::ReloadUnit { name: owned(full_service_name), mode: owned("replace") }
}

/// The call that enables a service at boot: for good, and over links that
/// are in the way.
pub fn enable_service(full_service_name: &str) -> (call: ManagerCall)
    ensures
        call@ == (CallView::EnableUnitFiles {
            files: seq![full_service_name@],
            runtime: false,
            force: true,
        }),
{
    ManagerCall::EnableUnitFiles { files: single(full_service_name), runtime: false, force: true }
}

/// The call that disables a service at boot, for good.
pub fn disable_service(full_service_name: &str) -> (call: ManagerCall)
    ensures
        call@ == (CallView::DisableUnitFiles { files: seq![full_service_name@], runtime: false }),
{
    ManagerCall::DisableUnitFiles { files: single(full_service_name), runtime: false }
}

} // verus!
