//! The agent's view of the engine's containers: a `Module` it owns, the
//! runtime state a state query reports, the engine's listing records, and
//! the engine's system information.

use vstd::prelude::*;

use crate::config::EngineConfig;
use crate::error::Error;
use crate::text::is_blank;
use crate::text::spec_is_blank;

verus! {

/// The module type this runtime supports.
pub open spec fn spec_module_type() -> Seq<char> {
    "docker"@
}

pub fn module_type() -> (r: &'static str)
    ensures
        r@ == spec_module_type(),
{
    "docker"
}

/// A module the engine reports owning: its display name and configuration.
#[derive(Debug, PartialEq)]
pub struct Module {
    pub name: String,
    pub config: EngineConfig,
}

impl Module {
    /// A well-formed module carries a non-blank name.
    pub open spec fn wf(self) -> bool {
        !spec_is_blank(self.name@)
    }

    /// Accepts exactly the pairs whose name is non-blank.
    pub fn new(name: String, config: EngineConfig) -> (r: Result<Module, Error>)
        ensures
            r is Ok <==> !spec_is_blank(name@),
            r matches Ok(m) ==> m.name == name && m.config == config && m.wf(),
            r matches Err(e) ==> e == Error::InvalidIdentifier,
    {
        if is_blank(name.as_str()) {
            Err(Error::InvalidIdentifier)
        } else {
            Ok(Module { name, config })
        }
    }

    pub fn name(&self) -> (r: &String)
        ensures
            r == self.name,
    {
        &self.name
    }

    pub fn type_(&self) -> (r: &'static str)
        ensures
            r@ == spec_module_type(),
    {
        module_type()
    }

    pub fn config(&self) -> (r: &EngineConfig)
        ensures
            r == self.config,
    {
        &self.config
    }
}

/// The process identifier a state query reports.
#[derive(Clone, Copy, Debug, PartialEq, Eq, Structural)]
pub enum Pid {
    /// The engine reported no process.
    Absent,
    /// The engine reported a process without a usable identifier.
    Any,
    /// A concrete process identifier.
    Value(i32),
}

/// The engine-reported status of a module.
#[derive(Clone, Copy, Debug, PartialEq, Eq, Structural)]
pub enum ModuleStatus {
    Unknown,
    Running,
    Stopped,
    Failed,
}

/// A snapshot of a module's observed state; produced only by a state query,
/// never authored by the agent.
#[derive(Clone, Debug, PartialEq)]
pub struct ModuleRuntimeState {
    pub status: ModuleStatus,
    pub exit_code: Option<i64>,
    pub started_at: Option<String>,
    pub finished_at: Option<String>,
    pub pid: Pid,
}

impl Default for ModuleRuntimeState {
    /// The state before anything is known: status unknown, nothing reported.
    fn default() -> (r: ModuleRuntimeState)
        ensures
            r.status == ModuleStatus::Unknown,
            r.exit_code is None,
            r.started_at is None,
            r.finished_at is None,
            r.pid == Pid::Absent,
    {
        ModuleRuntimeState {
            status: ModuleStatus::Unknown,
            exit_code: None,
            started_at: None,
            finished_at: None,
            pid: Pid::Absent,
        }
    }
}

impl ModuleRuntimeState {
    pub fn with_status(self, status: ModuleStatus) -> (r: ModuleRuntimeState)
        ensures
            r == (ModuleRuntimeState { status, ..self }),
    {
        ModuleRuntimeState { status, ..self }
    }

    pub fn with_exit_code(self, exit_code: i64) -> (r: ModuleRuntimeState)
        ensures
            r == (ModuleRuntimeState { exit_code: Some(exit_code), ..self }),
    {
        ModuleRuntimeState { exit_code: Some(exit_code), ..self }
    }

    pub fn with_started_at(self, started_at: String) -> (r: ModuleRuntimeState)
        ensures
            r == (ModuleRuntimeState { started_at: Some(started_at), ..self }),
    {
        ModuleRuntimeState { started_at: Some(started_at), ..self }
    }

    pub fn with_finished_at(self, finished_at: String) -> (r: ModuleRuntimeState)
        ensures
            r == (ModuleRuntimeState { finished_at: Some(finished_at), ..self }),
    {
        ModuleRuntimeState { finished_at: Some(finished_at), ..self }
    }

    pub fn with_pid(self, pid: Pid) -> (r: ModuleRuntimeState)
        ensures
            r == (ModuleRuntimeState { pid, ..self }),
    {
        ModuleRuntimeState { pid, ..self }
    }
}

/// Engine-reported platform information.
#[derive(Clone, Debug, PartialEq)]
pub struct SystemInfo {
    pub os_type: String,
    pub architecture: String,
}

impl SystemInfo {
    pub fn new(os_type: String, architecture: String) -> (r: SystemInfo)
        ensures
            r.os_type == os_type,
            r.architecture == architecture,
    {
        SystemInfo { os_type, architecture }
    }

    pub fn os_type(&self) -> (r: &String)
        ensures
            r == self.os_type,
    {
        &self.os_type
    }

    pub fn architecture(&self) -> (r: &String)
        ensures
            r == self.architecture,
    {
        &self.architecture
    }
}

/// One record of the engine's container listing, reduced to the fields the
/// listing maps into a `Module`.
#[derive(Debug, PartialEq)]
pub struct ContainerRecord {
    pub image: String,
    pub image_id: String,
    pub labels: crate::env::StringMap,
    pub names: Vec<String>,
}

/// The name of an identity to delete.
#[derive(Clone, Debug, PartialEq)]
pub struct IdentitySpec {
    pub name: String,
}

impl IdentitySpec {
    pub fn new(name: String) -> (r: IdentitySpec)
        ensures
            r.name == name,
    {
        IdentitySpec { name }
    }

    pub fn name(&self) -> (r: &String)
        ensures
            r == self.name,
    {
        &self.name
    }
}

} // verus!
