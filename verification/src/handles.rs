//! Handles: the user-facing names of the entities of the service.

use crate::text::{decimal, join3, u64_to_string};
use vstd::prelude::*;

verus! {

/// A project, named by its unique name.
#[derive(Debug, PartialEq, Eq)]
pub struct Project {
    pub name: String,
}

/// A jobset, named within its project.
#[derive(Debug, PartialEq, Eq)]
pub struct Jobset {
    pub project: Project,
    pub name: String,
}

/// An evaluation, numbered within its project.
#[derive(Debug, PartialEq, Eq)]
pub struct Evaluation {
    pub project: Project,
    pub num: u64,
}

/// A job of an evaluation, named by system and name.
#[derive(Debug, PartialEq, Eq)]
pub struct Job {
    pub evaluation: Evaluation,
    pub system: String,
    pub name: String,
}

/// A run, numbered within its job.
#[derive(Debug, PartialEq, Eq)]
pub struct Run {
    pub job: Job,
    pub num: u64,
}

/// A build, numbered within its derivation.
#[derive(Debug, PartialEq, Eq)]
pub struct Build {
    pub drv: String,
    pub num: u64,
}

/// An action, numbered within its project.
#[derive(Debug, PartialEq, Eq)]
pub struct Action {
    pub project: Project,
    pub num: u64,
}

impl Clone for Project {
    fn clone(&self) -> (copy: Self)
        ensures
            copy == *self,
    {
        Project { name: self.name.clone() }
    }
}

impl Clone for Jobset {
    fn clone(&self) -> (copy: Self)
        ensures
            copy == *self,
    {
        Jobset { project: self.project.clone(), name: self.name.clone() }
    }
}

impl Clone for Evaluation {
    fn clone(&self) -> (copy: Self)
        ensures
            copy == *self,
    {
        Evaluation { project: self.project.clone(), num: self.num }
    }
}

impl Clone for Job {
    fn clone(&self) -> (copy: Self)
        ensures
            copy == *self,
    {
        Job {
            evaluation: self.evaluation.clone(),
            system: self.system.clone(),
            name: self.name.clone(),
        }
    }
}

impl Clone for Run {
    fn clone(&self) -> (copy: Self)
        ensures
            copy == *self,
    {
        Run { job: self.job.clone(), num: self.num }
    }
}

impl Clone for Build {
    fn clone(&self) -> (copy: Self)
        ensures
            copy == *self,
    {
        Build { drv: self.drv.clone(), num: self.num }
    }
}

impl Clone for Action {
    fn clone(&self) -> (copy: Self)
        ensures
            copy == *self,
    {
        Action { project: self.project.clone(), num: self.num }
    }
}

/// The handle of the project called `name`.
pub fn project(name: String) -> (handle: Project)
    ensures
        handle == (Project { name }),
{
    Project { name }
}

/// The handle of a jobset from project and jobset name.
pub fn jobset(parts: (String, String)) -> (handle: Jobset)
    ensures
        handle == (Jobset { project: Project { name: parts.0 }, name: parts.1 }),
{
    let (project, name) = parts;
    Jobset { project: Project { name: project }, name }
}

/// The handle of an evaluation from project name and evaluation number.
pub fn evaluation(parts: (String, u64)) -> (handle: Evaluation)
    ensures
        handle == (Evaluation { project: Project { name: parts.0 }, num: parts.1 }),
{
    let (project, num) = parts;
    Evaluation { project: Project { name: project }, num }
}

/// The handle of a job from project name, evaluation number, system and
/// job name.
pub fn job(parts: (String, u64, String, String)) -> (handle: Job)
    ensures
        handle == (Job {
            evaluation: Evaluation { project: Project { name: parts.0 }, num: parts.1 },
            system: parts.2,
            name: parts.3,
        }),
{
    let (project, num, system, name) = parts;
    Job { evaluation: Evaluation { project: Project { name: project }, num }, system, name }
}

/// The handle of a run from project name, evaluation number, system, job
/// name and run number.
pub fn run(parts: (String, u64, String, String, u64)) -> (handle: Run)
    ensures
        handle == (Run {
            job: Job {
                evaluation: Evaluation { project: Project { name: parts.0 }, num: parts.1 },
                system: parts.2,
                name: parts.3,
            },
            num: parts.4,
        }),
{
    let (project, evaluation, system, name, num) = parts;
    Run {
        job: Job {
            evaluation: Evaluation { project: Project { name: project }, num: evaluation },
            system,
            name,
        },
        num,
    }
}

/// The handle of a build from derivation path and build number.
pub fn build(parts: (String, u64)) -> (handle: Build)
    ensures
        handle == (Build { drv: parts.0, num: parts.1 }),
{
    let (drv, num) = parts;
    Build { drv, num }
}

/// The handle of an action from project name and action number.
pub fn action(parts: (String, u64)) -> (handle: Action)
    ensures
        handle == (Action { project: Project { name: parts.0 }, num: parts.1 }),
{
    let (project, num) = parts;
    Action { project: Project { name: project }, num }
}

/// A project is written as its name.
pub open spec fn project_text(handle: Project) -> Seq<char> {
    handle.name@
}

/// A jobset is written as project and name, with a colon between.
pub open spec fn jobset_text(handle: Jobset) -> Seq<char> {
    project_text(handle.project) + ":"@ + handle.name@
}

/// An evaluation is written as project and number, with a colon between.
pub open spec fn evaluation_text(handle: Evaluation) -> Seq<char> {
    project_text(handle.project) + ":"@ + decimal(handle.num as nat)
}

/// A job is written as its evaluation, system and name, colon-separated.
pub open spec fn job_text(handle: Job) -> Seq<char> {
    evaluation_text(handle.evaluation) + ":"@ + handle.system@ + ":"@ + handle.name@
}

/// A run is written as its job and number, with a colon between.
pub open spec fn run_text(handle: Run) -> Seq<char> {
    job_text(handle.job) + ":"@ + decimal(handle.num as nat)
}

/// A build is written as derivation and number, with a colon between.
pub open spec fn build_text(handle: Build) -> Seq<char> {
    handle.drv@ + ":"@ + decimal(handle.num as nat)
}

/// An action is written as project and number, with a colon between.
pub open spec fn action_text(handle: Action) -> Seq<char> {
    project_text(handle.project) + ":"@ + decimal(handle.num as nat)
}

impl Project {
    pub fn to_string(&self) -> (text: String)
        ensures
            text@ == project_text(*self),
    {
        self.name.clone()
    }
}

impl Jobset {
    pub fn to_string(&self) -> (text: String)
        ensures
            text@ == jobset_text(*self),
    {
        join3(self.project.name.as_str(), ":", self.name.as_str())
    }
}

impl Evaluation {
    pub fn to_string(&self) -> (text: String)
        ensures
            text@ == evaluation_text(*self),
    {
        let num = u64_to_string(self.num);
        join3(self.project.name.as_str(), ":", num.as_str())
    }
}

impl Job {
    pub fn to_string(&self) -> (text: String)
        ensures
            text@ == job_text(*self),
    {
        let evaluation = self.evaluation.to_string();
        let head = join3(evaluation.as_str(), ":", self.system.as_str());
        join3(head.as_str(), ":", self.name.as_str())
    }
}

impl Run {
    pub fn to_string(&self) -> (text: String)
        ensures
            text@ == run_text(*self),
    {
        let job = self.job.to_string();
        let num = u64_to_string(self.num);
        join3(job.as_str(), ":", num.as_str())
    }
}

impl Build {
    pub fn to_string(&self) -> (text: String)
        ensures
            text@ == build_text(*self),
    {
        let num = u64_to_string(self.num);
        join3(self.drv.as_str(), ":", num.as_str())
    }
}

impl Action {
    pub fn to_string(&self) -> (text: String)
        ensures
            text@ == action_text(*self),
    {
        let num = u64_to_string(self.num);
        join3(self.project.name.as_str(), ":", num.as_str())
    }
}

} // verus!
