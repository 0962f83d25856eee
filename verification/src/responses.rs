//! What the service answers: the status of tasks and the descriptions of
//! actions, builds, runs, jobs and evaluations.

use crate::data::TaskStatusKind;
use crate::handles;
use vstd::prelude::*;

verus! {

/// The status of a task together with its timing, in seconds since the
/// epoch.
#[derive(Clone, Copy, Debug, PartialEq, Eq, Structural)]
pub struct TaskStatus {
    pub kind: TaskStatusKind,
    pub time_started: Option<i64>,
    pub time_finished: Option<i64>,
}

#[derive(Debug, PartialEq, Eq)]
pub struct ActionInfo {
    pub handle: handles::Action,
    pub input: String,
    pub path: String,
    pub status: TaskStatus,
}

#[derive(Debug, PartialEq, Eq)]
pub struct BuildInfo {
    pub handle: handles::Build,
    pub drv: String,
    pub status: TaskStatus,
}

#[derive(Debug, PartialEq, Eq)]
pub struct RunInfo {
    pub handle: handles::Run,
    pub begin: Option<ActionInfo>,
    pub build: Option<BuildInfo>,
    pub end: Option<ActionInfo>,
}

/// The name of a job within its evaluation.
#[derive(Debug, PartialEq, Eq)]
pub struct JobSystemName {
    pub system: String,
    pub name: String,
}

#[derive(Debug, PartialEq, Eq)]
pub struct JobInfo {
    pub handle: handles::Job,
    pub dist: bool,
    pub drv: String,
    pub out: String,
    pub system: String,
    pub last_run: RunInfo,
    pub run_count: u32,
}

/// The description of an evaluation. `jobs` holds one entry for each job
/// name, no name twice.
#[derive(Debug, PartialEq, Eq)]
pub struct EvaluationInfo {
    pub handle: handles::Evaluation,
    pub actions_path: Option<String>,
    pub flake: bool,
    pub jobs: Vec<(JobSystemName, JobInfo)>,
    pub jobset_name: String,
    pub status: TaskStatus,
    pub time_created: i64,
    pub url: String,
}

impl Clone for JobSystemName {
    fn clone(&self) -> (copy: Self)
        ensures
            copy == *self,
    {
        JobSystemName { system: self.system.clone(), name: self.name.clone() }
    }
}

impl Clone for ActionInfo {
    fn clone(&self) -> (copy: Self)
        ensures
            copy == *self,
    {
        ActionInfo {
            handle: self.handle.clone(),
            input: self.input.clone(),
            path: self.path.clone(),
            status: self.status,
        }
    }
}

impl Clone for BuildInfo {
    fn clone(&self) -> (copy: Self)
        ensures
            copy == *self,
    {
        BuildInfo { handle: self.handle.clone(), drv: self.drv.clone(), status: self.status }
    }
}

impl Clone for RunInfo {
    fn clone(&self) -> (copy: Self)
        ensures
            copy == *self,
    {
        RunInfo {
            handle: self.handle.clone(),
            begin: match &self.begin {
                Some(info) => Some(info.clone()),
                None => None,
            },
            build: match &self.build {
                Some(info) => Some(info.clone()),
                None => None,
            },
            end: match &self.end {
                Some(info) => Some(info.clone()),
                None => None,
            },
        }
    }
}

impl Clone for JobInfo {
    fn clone(&self) -> (copy: Self)
        ensures
            copy == *self,
    {
        JobInfo {
            handle: self.handle.clone(),
            dist: self.dist,
            drv: self.drv.clone(),
            out: self.out.clone(),
            system: self.system.clone(),
            last_run: self.last_run.clone(),
            run_count: self.run_count,
        }
    }
}

} // verus!
