//! The modules of a device as the dashboard shows them: the list entries, the
//! health computed from the list, the text of a module's logs, and the
//! address of the management API.

use vstd::prelude::*;
use vstd::string::StringExecFns;
use crate::demo_data::{cpu_figures, memory_figures, placeholder_cpu, placeholder_memory};
use crate::health::{rollup, HealthStatus, Status};

verus! {

/// The configuration shown for a module.
#[derive(Debug, PartialEq, Eq)]
pub struct TConfig {
    pub image: String,
}

/// One module of the list.
#[derive(Debug, PartialEq, Eq)]
pub struct Module {
    pub id: String,
    pub module_type: String,
    pub status: String,
    pub config: TConfig,
    pub cpu: i32,
    pub memory_in_mb: i32,
}

/// The image name shown for the module `id`.
pub open spec fn image_of(id: Seq<char>) -> Seq<char> {
    "mcr.microsoft.com/"@ + id + ":1.0"@
}

impl TConfig {
    pub fn new(id: String) -> (r: Self)
        ensures
            r.image@ == image_of(id@),
    {
        let mut image = String::from_str("mcr.microsoft.com/");
        image.append(id.as_str());
        image.append(":1.0");
        TConfig { image }
    }
}

impl Module {
    /// A list entry with the given resource figures.
    pub fn with_figures(id: String, status: String, cpu: i32, memory_in_mb: i32) -> (r: Self)
        ensures
            r.id@ == id@,
            r.module_type@ == "docker"@,
            r.status@ == status@,
            r.config.image@ == image_of(id@),
            r.cpu == cpu,
            r.memory_in_mb == memory_in_mb,
    {
        let config = TConfig::new(id.clone());
        Module { id, module_type: String::from_str("docker"), status, config, cpu, memory_in_mb }
    }

    /// A list entry with placeholder resource figures.
    pub fn new(id: String, status: String) -> (r: Self)
        ensures
            r.id@ == id@,
            r.module_type@ == "docker"@,
            r.status@ == status@,
            r.config.image@ == image_of(id@),
            cpu_figures().contains(r.cpu),
            memory_figures().contains(r.memory_in_mb),
    {
        let cpu = placeholder_cpu();
        let memory_in_mb = placeholder_memory();
        Module::with_figures(id, status, cpu, memory_in_mb)
    }

    pub fn id(&self) -> (r: &String)
        ensures
            r == &self.id,
    {
        &self.id
    }

    pub fn status(&self) -> (r: &String)
        ensures
            r == &self.status,
    {
        &self.status
    }
}

/// Whether `text` is the word `word`.
pub fn text_is(text: &String, word: &str) -> (r: bool)
    ensures
        r == (text@ == word@),
{
    let other = String::from_str(word);
    text.eq(&other)
}

/// The module runs.
pub open spec fn is_running(module: Module) -> bool {
    module.status@ == "running"@
}

/// The module named `id` is in the list and runs.
pub open spec fn runs(modules: Seq<Module>, id: Seq<char>) -> bool {
    exists|i: int| 0 <= i < modules.len() && #[trigger] modules[i].id@ == id && is_running(modules[i])
}

/// Some module of the list does not run.
pub open spec fn some_stopped(modules: Seq<Module>) -> bool {
    exists|i: int| 0 <= i < modules.len() && !is_running(#[trigger] modules[i])
}

/// The status of a device with these modules. The daemon counts as up: it
/// has just answered with the list. The flag for the other modules is set
/// where the agent and the hub run and some module of the list does not.
pub open spec fn device_status(modules: Seq<Module>) -> Status {
    let edge_agent = runs(modules, "edgeAgent"@);
    let edge_hub = runs(modules, "edgeHub"@);
    Status {
        iotedged: true,
        edge_agent,
        edge_hub,
        other_modules: edge_agent && edge_hub && some_stopped(modules),
    }
}

/// Whether the module named `id` is in the list and runs.
pub fn module_runs(modules: &Vec<Module>, id: &str) -> (r: bool)
    ensures
        r == runs(modules@, id@),
{
    let mut i: usize = 0;
    while i < modules.len()
        invariant
            i <= modules.len(),
            forall|j: int| 0 <= j < i ==> !(#[trigger] modules@[j].id@ == id@ && is_running(modules@[j])),
        decreases modules.len() - i,
    {
        if text_is(&modules[i].id, id) && text_is(&modules[i].status, "running") {
            assert(modules@[i as int].id@ == id@ && is_running(modules@[i as int]));
            return true;
        }
        i += 1;
    }
    false
}

/// Whether some module of the list does not run.
pub fn any_stopped(modules: &Vec<Module>) -> (r: bool)
    ensures
        r == some_stopped(modules@),
{
    let mut i: usize = 0;
    while i < modules.len()
        invariant
            i <= modules.len(),
            forall|j: int| 0 <= j < i ==> is_running(#[trigger] modules@[j]),
        decreases modules.len() - i,
    {
        if !text_is(&modules[i].status, "running") {
            assert(!is_running(modules@[i as int]));
            return true;
        }
        i += 1;
    }
    false
}

/// The health of a device with these modules, and the status behind it.
pub fn health_of(modules: &Vec<Module>) -> (r: HealthStatus)
    ensures
        r.status == device_status(modules@),
        r.health == rollup(device_status(modules@)),
{
    let mut status = Status::new();
    let edge_agent = module_runs(modules, "edgeAgent");
    let edge_hub = module_runs(modules, "edgeHub");
    let other = any_stopped(modules);
    status.set_iotedged();
    status.set_edge_agent(edge_agent);
    status.set_edge_hub(edge_hub);
    status.set_other_modules(edge_agent && edge_hub && other);
    let health = status.return_health();
    HealthStatus::new(health, status)
}

/// The entries of the list for modules given by name and runtime status, in
/// the same order. The resource figures are placeholders.
pub fn modules_of(entries: Vec<(String, String)>) -> (r: Vec<Module>)
    ensures
        r@.len() == entries@.len(),
        forall|i: int|
            0 <= i < r@.len() ==> {
                &&& (#[trigger] r@[i]).id@ == entries@[i].0@
                &&& r@[i].status@ == entries@[i].1@
                &&& r@[i].module_type@ == "docker"@
                &&& r@[i].config.image@ == image_of(entries@[i].0@)
                &&& cpu_figures().contains(r@[i].cpu)
                &&& memory_figures().contains(r@[i].memory_in_mb)
            },
{
    let mut out: Vec<Module> = Vec::new();
    let mut i: usize = 0;
    while i < entries.len()
        invariant
            i <= entries.len(),
            out@.len() == i,
            forall|j: int|
                0 <= j < i ==> {
                    &&& (#[trigger] out@[j]).id@ == entries@[j].0@
                    &&& out@[j].status@ == entries@[j].1@
                    &&& out@[j].module_type@ == "docker"@
                    &&& out@[j].config.image@ == image_of(entries@[j].0@)
                    &&& cpu_figures().contains(out@[j].cpu)
                    &&& memory_figures().contains(out@[j].memory_in_mb)
                },
        decreases entries.len() - i,
    {
        let id = entries[i].0.clone();
        let status = entries[i].1.clone();
        out.push(Module::new(id, status));
        i += 1;
    }
    out
}

} // verus!
