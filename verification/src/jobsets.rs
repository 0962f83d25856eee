//! Jobsets: a flake reference of a project, and the evaluations made of
//! it.

use crate::handles;
use crate::models;
use crate::models::clone_opt_string;
use crate::nums::{max_num, next_num};
use vstd::prelude::*;

verus! {

/// A jobset with its project.
#[derive(Debug, PartialEq, Eq)]
pub struct Jobset {
    pub jobset: models::Jobset,
    pub project: models::Project,
}

/// An evaluation that is not yet persisted.
#[derive(Debug, PartialEq, Eq)]
pub struct NewEvaluation {
    pub project_id: i32,
    pub num: i64,
    pub jobset_name: String,
    pub url: String,
    pub flake: bool,
    pub actions_path: Option<String>,
    pub time_created: i64,
    pub task_id: i32,
}

/// The evaluation that a jobset gets next, where the evaluations of its
/// project hold the numbers `nums`: it has the number after the largest,
/// evaluates the flake of the jobset, finds its actions where the project
/// has them, and has the task given.
pub open spec fn next_evaluation(
    jobset: Jobset,
    nums: Seq<i64>,
    time_created: i64,
    task_id: i32,
) -> NewEvaluation {
    NewEvaluation {
        project_id: jobset.project.id,
        num: (max_num(nums) + 1) as i64,
        jobset_name: jobset.jobset.name,
        url: jobset.jobset.url,
        flake: jobset.jobset.flake,
        actions_path: jobset.project.actions_path,
        time_created,
        task_id,
    }
}

impl Jobset {
    /// The handle of the jobset.
    pub fn handle(&self) -> (handle: handles::Jobset)
        ensures
            handle == (handles::Jobset {
                project: handles::Project { name: self.project.name },
                name: self.jobset.name,
            }),
    {
        handles::jobset((self.project.name.clone(), self.jobset.name.clone()))
    }

    /// The next evaluation of the jobset, to be persisted with the fresh
    /// task `task_id`; `nums` holds the numbers of the evaluations of the
    /// project. `None` where the largest number cannot be exceeded.
    pub fn evaluate(&self, nums: &Vec<i64>, time_created: i64, task_id: i32) -> (evaluation:
        Option<NewEvaluation>)
        ensures
            max_num(nums@) < i64::MAX ==> evaluation == Some(
                next_evaluation(*self, nums@, time_created, task_id),
            ),
            max_num(nums@) >= i64::MAX ==> evaluation is None,
    {
        match next_num(nums) {
            Some(num) => Some(
                NewEvaluation {
                    project_id: self.project.id,
                    num,
                    jobset_name: self.jobset.name.clone(),
                    url: self.jobset.url.clone(),
                    flake: self.jobset.flake,
                    actions_path: clone_opt_string(&self.project.actions_path),
                    time_created,
                    task_id,
                },
            ),
            None => None,
        }
    }
}

} // verus!
