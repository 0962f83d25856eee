//! Rows of the persisted state, one struct per table.

use crate::data::TaskStatusKind;
use vstd::prelude::*;

verus! {

/// A copy of an optional string.
pub fn clone_opt_string(text: &Option<String>) -> (copy: Option<String>)
    ensures
        copy == *text,
{
    match text {
        Some(s) => Some(s.clone()),
        None => None,
    }
}

/// The status record of one asynchronous unit of work.
#[derive(Debug, PartialEq, Eq)]
pub struct Task {
    pub id: i32,
    pub status: TaskStatusKind,
    pub time_started: Option<i64>,
    pub time_finished: Option<i64>,
    pub log: String,
}

#[derive(Debug, PartialEq, Eq)]
pub struct Project {
    pub id: i32,
    pub name: String,
    pub url: String,
    pub url_locked: String,
    pub actions_path: Option<String>,
    pub key: String,
    pub description: String,
    pub homepage: String,
    pub title: String,
}

#[derive(Debug, PartialEq, Eq)]
pub struct Jobset {
    pub id: i32,
    pub project_id: i32,
    pub name: String,
    pub url: String,
    pub flake: bool,
}

#[derive(Debug, PartialEq, Eq)]
pub struct Evaluation {
    pub id: i32,
    pub project_id: i32,
    pub num: i64,
    pub jobset_name: String,
    pub url: String,
    pub flake: bool,
    pub actions_path: Option<String>,
    pub time_created: i64,
    pub task_id: i32,
}

#[derive(Debug, PartialEq, Eq)]
pub struct Job {
    pub id: i32,
    pub evaluation_id: i32,
    pub system: String,
    pub name: String,
    pub drv: String,
    pub out: String,
    pub dist: bool,
}

#[derive(Debug, PartialEq, Eq)]
pub struct Run {
    pub id: i32,
    pub job_id: i32,
    pub num: i64,
    pub time_created: i64,
    pub begin_id: Option<i32>,
    pub build_id: Option<i32>,
    pub end_id: Option<i32>,
}

#[derive(Debug, PartialEq, Eq)]
pub struct Action {
    pub id: i32,
    pub project_id: i32,
    pub num: i64,
    pub name: String,
    pub input: String,
    pub path: String,
    pub task_id: i32,
}

#[derive(Debug, PartialEq, Eq)]
pub struct Build {
    pub id: i32,
    pub drv: String,
    pub num: i64,
    pub task_id: i32,
}

/// A job that is not yet persisted.
#[derive(Debug, PartialEq, Eq)]
pub struct NewJob {
    pub dist: bool,
    pub drv: String,
    pub evaluation_id: i32,
    pub name: String,
    pub out: String,
    pub system: String,
}

impl Clone for Task {
    fn clone(&self) -> (copy: Self)
        ensures
            copy == *self,
    {
        Task {
            id: self.id,
            status: self.status,
            time_started: self.time_started,
            time_finished: self.time_finished,
            log: self.log.clone(),
        }
    }
}

impl Clone for Project {
    fn clone(&self) -> (copy: Self)
        ensures
            copy == *self,
    {
        Project {
            id: self.id,
            name: self.name.clone(),
            url: self.url.clone(),
            url_locked: self.url_locked.clone(),
            actions_path: clone_opt_string(&self.actions_path),
            key: self.key.clone(),
            description: self.description.clone(),
            homepage: self.homepage.clone(),
            title: self.title.clone(),
        }
    }
}

impl Clone for Jobset {
    fn clone(&self) -> (copy: Self)
        ensures
            copy == *self,
    {
        Jobset {
            id: self.id,
            project_id: self.project_id,
            name: self.name.clone(),
            url: self.url.clone(),
            flake: self.flake,
        }
    }
}

impl Clone for Evaluation {
    fn clone(&self) -> (copy: Self)
        ensures
            copy == *self,
    {
        Evaluation {
            id: self.id,
            project_id: self.project_id,
            num: self.num,
            jobset_name: self.jobset_name.clone(),
            url: self.url.clone(),
            flake: self.flake,
            actions_path: clone_opt_string(&self.actions_path),
            time_created: self.time_created,
            task_id: self.task_id,
        }
    }
}

impl Clone for Job {
    fn clone(&self) -> (copy: Self)
        ensures
            copy == *self,
    {
        Job {
            id: self.id,
            evaluation_id: self.evaluation_id,
            system: self.system.clone(),
            name: self.name.clone(),
            drv: self.drv.clone(),
            out: self.out.clone(),
            dist: self.dist,
        }
    }
}

impl Clone for Run {
    fn clone(&self) -> (copy: Self)
        ensures
            copy == *self,
    {
        Run {
            id: self.id,
            job_id: self.job_id,
            num: self.num,
            time_created: self.time_created,
            begin_id: self.begin_id,
            build_id: self.build_id,
            end_id: self.end_id,
        }
    }
}

impl Clone for Action {
    fn clone(&self) -> (copy: Self)
        ensures
            copy == *self,
    {
        Action {
            id: self.id,
            project_id: self.project_id,
            num: self.num,
            name: self.name.clone(),
            input: self.input.clone(),
            path: self.path.clone(),
            task_id: self.task_id,
        }
    }
}

impl Clone for Build {
    fn clone(&self) -> (copy: Self)
        ensures
            copy == *self,
    {
        Build { id: self.id, drv: self.drv.clone(), num: self.num, task_id: self.task_id }
    }
}

impl Clone for NewJob {
    fn clone(&self) -> (copy: Self)
        ensures
            copy == *self,
    {
        NewJob {
            dist: self.dist,
            drv: self.drv.clone(),
            evaluation_id: self.evaluation_id,
            name: self.name.clone(),
            out: self.out.clone(),
            system: self.system.clone(),
        }
    }
}

} // verus!
