//! What can be asked of the service.

use crate::handles;
use vstd::prelude::*;

verus! {

/// What can be asked of a project.
#[derive(Debug, PartialEq, Eq)]
pub enum Project {
    Delete,
    Info,
    Refresh,
    SetDecl(String),
    SetPrivateKey(String),
    UpdateJobsets,
}

/// What can be asked of a jobset.
#[derive(Clone, Copy, Debug, PartialEq, Eq, Structural)]
pub enum Jobset {
    Evaluate,
    Info,
}

/// What can be asked of an evaluation.
#[derive(Clone, Copy, Debug, PartialEq, Eq, Structural)]
pub enum Evaluation {
    Cancel,
    Info,
}

/// What can be asked of a job.
#[derive(Clone, Copy, Debug, PartialEq, Eq, Structural)]
pub enum Job {
    Cancel,
    Info,
}

/// What can be asked of a build.
#[derive(Clone, Copy, Debug, PartialEq, Eq, Structural)]
pub enum Build {
    Cancel,
    Info,
    Log,
}

/// What can be asked of a run.
#[derive(Clone, Copy, Debug, PartialEq, Eq, Structural)]
pub enum Run {
    Cancel,
    Info,
}

/// A search for runs: each criterion that is given must hold of a run for
/// it to be found.
#[derive(Debug, PartialEq, Eq)]
pub struct RunSearch {
    pub project_name: Option<String>,
    pub jobset_name: Option<String>,
    pub evaluation_num: Option<u64>,
    pub job_name: Option<String>,
    pub job_system: Option<String>,
    pub offset: u32,
    pub limit: u32,
}

/// A request to the service.
#[derive(Debug, PartialEq, Eq)]
pub enum Request {
    ListProjects,
    CreateProject(handles::Project),
    Project(handles::Project, Project),
    Jobset(handles::Jobset, Jobset),
    Evaluation(handles::Evaluation, Evaluation),
    Job(handles::Job, Job),
    Build(handles::Build, Build),
    Run(handles::Run, Run),
    Search(RunSearch),
}

} // verus!
