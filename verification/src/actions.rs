//! Actions: the scripts of a project that run at the begin and at the end
//! of a run.

use crate::data::TaskStatusKind;
use crate::evaluations::{action_info, ActionRow};
use crate::handles;
use crate::models;
use crate::responses::ActionInfo;
use crate::tasks;
use vstd::prelude::*;

verus! {

/// An action with its task and the project it belongs to.
#[derive(Debug, PartialEq, Eq)]
pub struct Action {
    pub task: tasks::Task,
    pub action: models::Action,
    pub project: models::Project,
}

impl Clone for Action {
    fn clone(&self) -> (copy: Self)
        ensures
            copy == *self,
    {
        Action {
            task: self.task.clone(),
            action: self.action.clone(),
            project: self.project.clone(),
        }
    }
}

/// The input document of an action of a run.
#[derive(Debug, PartialEq, Eq)]
pub struct ActionInput {
    pub drv: String,
    pub evaluation: i64,
    pub flake: bool,
    pub job: String,
    pub jobset: String,
    pub out: String,
    pub project: String,
    pub status: String,
    pub system: String,
    pub url: String,
}

/// An action that is to be created and started: the bundle in which its
/// script is found, the name of the script and its input.
#[derive(Debug, PartialEq, Eq)]
pub struct NewAction {
    pub path: String,
    pub name: String,
    pub input: ActionInput,
}

/// The handle of an action: the name of its project and its number.
pub open spec fn action_handle(a: Action) -> handles::Action {
    handles::Action { project: handles::Project { name: a.project.name }, num: a.action.num as u64 }
}

/// The status with which an action ends: canceled where it was stopped
/// before it returned, success where its script exited with zero, and
/// error for any other exit code.
pub open spec fn exit_status(outcome: Option<i32>) -> TaskStatusKind {
    match outcome {
        None => TaskStatusKind::Canceled,
        Some(code) => if code == 0 {
            TaskStatusKind::Success
        } else {
            TaskStatusKind::Error
        },
    }
}

impl Action {
    /// The handle of the action.
    pub fn handle(&self) -> (handle: handles::Action)
        ensures
            handle == action_handle(*self),
    {
        handles::action((self.project.name.clone(), self.action.num as u64))
    }

    /// The description of the action.
    pub fn info(&self) -> (info: ActionInfo)
        ensures
            info == action_info(
                handles::Project { name: self.project.name },
                (self.action, self.task.task),
            ),
    {
        ActionInfo {
            handle: self.handle(),
            input: self.action.input.clone(),
            path: self.action.path.clone(),
            status: self.task.status(),
        }
    }

    /// The rows from which the action was read.
    pub fn row(&self) -> (row: ActionRow)
        ensures
            row == (self.action, self.task.task),
    {
        (self.action.clone(), self.task.task.clone())
    }

    /// The status with which the action ends, from the exit code of its
    /// script, or from the absence of one where it was canceled.
    pub fn finish(outcome: Option<i32>) -> (status: TaskStatusKind)
        ensures
            status == exit_status(outcome),
    {
        match outcome {
            None => TaskStatusKind::Canceled,
            Some(code) => if code == 0 {
                TaskStatusKind::Success
            } else {
                TaskStatusKind::Error
            },
        }
    }
}

} // verus!
