//! Errors of the request surface and their classes.

use crate::data::{kind_text, TaskStatusKind};
use crate::handles;
use crate::nix;
use crate::tasks;
use crate::text::{join2, join3};
use vstd::prelude::*;

verus! {

/// What can go wrong while a request is served.
#[derive(Debug, PartialEq, Eq)]
pub enum Error {
    AccessDenied,
    ActionError(String),
    BadJobsetDecl(String),
    BuildNotFound(handles::Build),
    BuildNotRunning(handles::Build),
    EvaluationNotFound(handles::Evaluation),
    EvaluationNotRunning(handles::Evaluation),
    IllegalTransition(TaskStatusKind, TaskStatusKind),
    JobNotFound(handles::Job),
    JobsetNotFound(handles::Jobset),
    NixError(String),
    ProjectAlreadyExists(handles::Project),
    ProjectNotFound(handles::Project),
    RunNotFound(handles::Run),
    RunNotRunning(handles::Run),
    ShuttingDown,
    UnexpectedDatabaseError(String),
}

impl Clone for Error {
    fn clone(&self) -> (copy: Self)
        ensures
            copy == *self,
    {
        match self {
            Error::AccessDenied => Error::AccessDenied,
            Error::ActionError(msg) => Error::ActionError(msg.clone()),
            Error::BadJobsetDecl(msg) => Error::BadJobsetDecl(msg.clone()),
            Error::BuildNotFound(h) => Error::BuildNotFound(h.clone()),
            Error::BuildNotRunning(h) => Error::BuildNotRunning(h.clone()),
            Error::EvaluationNotFound(h) => Error::EvaluationNotFound(h.clone()),
            Error::EvaluationNotRunning(h) => Error::EvaluationNotRunning(h.clone()),
            Error::IllegalTransition(from, to) => Error::IllegalTransition(*from, *to),
            Error::JobNotFound(h) => Error::JobNotFound(h.clone()),
            Error::JobsetNotFound(h) => Error::JobsetNotFound(h.clone()),
            Error::NixError(msg) => Error::NixError(msg.clone()),
            Error::ProjectAlreadyExists(h) => Error::ProjectAlreadyExists(h.clone()),
            Error::ProjectNotFound(h) => Error::ProjectNotFound(h.clone()),
            Error::RunNotFound(h) => Error::RunNotFound(h.clone()),
            Error::RunNotRunning(h) => Error::RunNotRunning(h.clone()),
            Error::ShuttingDown => Error::ShuttingDown,
            Error::UnexpectedDatabaseError(msg) => Error::UnexpectedDatabaseError(msg.clone()),
        }
    }
}

impl From<tasks::Error> for Error {
    /// The refusal of a registry, as an error of the request surface.
    fn from(e: tasks::Error) -> (error: Error) {
        match e {
            tasks::Error::ShuttingDown => Error::ShuttingDown,
        }
    }
}

impl vstd::std_specs::convert::FromSpecImpl<tasks::Error> for Error {
    open spec fn obeys_from_spec() -> bool {
        true
    }

    open spec fn from_spec(e: tasks::Error) -> Error {
        Error::ShuttingDown
    }
}

impl From<nix::Error> for Error {
    /// The failure of a driver, as an error of the request surface: it
    /// keeps what the driver printed.
    fn from(e: nix::Error) -> (error: Error) {
        Error::NixError(e.message)
    }
}

impl vstd::std_specs::convert::FromSpecImpl<nix::Error> for Error {
    open spec fn obeys_from_spec() -> bool {
        true
    }

    open spec fn from_spec(e: nix::Error) -> Error {
        Error::NixError(e.message)
    }
}

/// The class under which an error leaves the request surface.
#[derive(Debug, PartialEq, Eq)]
pub enum ResponseError {
    ResourceNotFound(String),
    InternalError(()),
    BadRequest(String),
    Forbidden(String),
}

/// The four classes of errors.
#[derive(Clone, Copy, Debug, PartialEq, Eq, Structural)]
pub enum ErrorClass {
    NotFound,
    Internal,
    BadRequest,
    Forbidden,
}

/// The class of each error: a missing entity is not found, a denied
/// request is forbidden, an inconsistency of the service is internal, and
/// everything else is a bad request.
pub open spec fn error_class(e: Error) -> ErrorClass {
    match e {
        Error::BuildNotFound(_)
        | Error::EvaluationNotFound(_)
        | Error::JobNotFound(_)
        | Error::JobsetNotFound(_)
        | Error::ProjectNotFound(_)
        | Error::RunNotFound(_) => ErrorClass::NotFound,
        Error::AccessDenied => ErrorClass::Forbidden,
        Error::IllegalTransition(_, _) | Error::UnexpectedDatabaseError(_) => ErrorClass::Internal,
        Error::ActionError(_)
        | Error::BadJobsetDecl(_)
        | Error::BuildNotRunning(_)
        | Error::EvaluationNotRunning(_)
        | Error::NixError(_)
        | Error::ProjectAlreadyExists(_)
        | Error::RunNotRunning(_)
        | Error::ShuttingDown => ErrorClass::BadRequest,
    }
}

/// The message of each error.
pub open spec fn error_text(e: Error) -> Seq<char> {
    match e {
        Error::AccessDenied => "Access denied"@,
        Error::ActionError(msg) => "Action error: "@ + msg@,
        Error::BadJobsetDecl(msg) => "Bad jobset declaration: "@ + msg@,
        Error::BuildNotFound(h) => "Build not found: "@ + handles::build_text(h),
        Error::BuildNotRunning(h) => "Build is not running: "@ + handles::build_text(h),
        Error::EvaluationNotFound(h) => "Evaluation not found: "@ + handles::evaluation_text(h),
        Error::EvaluationNotRunning(h) => "Evaluation is not running: "@
            + handles::evaluation_text(h),
        Error::IllegalTransition(from, to) => "Illegal status transition: "@ + kind_text(from)
            + " to "@ + kind_text(to),
        Error::JobNotFound(h) => "Job not found: "@ + handles::job_text(h),
        Error::JobsetNotFound(h) => "Jobset not found: "@ + handles::jobset_text(h),
        Error::NixError(msg) => "Driver error: "@ + msg@,
        Error::ProjectAlreadyExists(h) => "Project already exists: "@ + handles::project_text(h),
        Error::ProjectNotFound(h) => "Project not found: "@ + handles::project_text(h),
        Error::RunNotFound(h) => "Run not found: "@ + handles::run_text(h),
        Error::RunNotRunning(h) => "Run is not running: "@ + handles::run_text(h),
        Error::ShuttingDown => "Task manager is shutting down"@,
        Error::UnexpectedDatabaseError(msg) => "Unexpected database error: "@ + msg@,
    }
}

/// The status code of each class.
pub open spec fn class_code(class: ErrorClass) -> u16 {
    match class {
        ErrorClass::NotFound => 404,
        ErrorClass::Internal => 500,
        ErrorClass::BadRequest => 400,
        ErrorClass::Forbidden => 403,
    }
}

impl Error {
    /// The class of the error.
    pub fn class(&self) -> (class: ErrorClass)
        ensures
            class == error_class(*self),
    {
        match self {
            Error::BuildNotFound(_)
            | Error::EvaluationNotFound(_)
            | Error::JobNotFound(_)
            | Error::JobsetNotFound(_)
            | Error::ProjectNotFound(_)
            | Error::RunNotFound(_) => ErrorClass::NotFound,
            Error::AccessDenied => ErrorClass::Forbidden,
            Error::IllegalTransition(_, _) | Error::UnexpectedDatabaseError(_) => {
                ErrorClass::Internal
            },
            _ => ErrorClass::BadRequest,
        }
    }

    /// Whether the error is an inconsistency of the service itself.
    pub fn is_internal(&self) -> (internal: bool)
        ensures
            internal == (error_class(*self) == ErrorClass::Internal),
    {
        match self {
            Error::IllegalTransition(_, _) | Error::UnexpectedDatabaseError(_) => true,
            _ => false,
        }
    }

    /// The message of the error.
    pub fn to_string(&self) -> (text: String)
        ensures
            text@ == error_text(*self),
    {
        match self {
            Error::AccessDenied => "Access denied".to_owned(),
            Error::ActionError(msg) => join2("Action error: ", msg.as_str()),
            Error::BadJobsetDecl(msg) => join2("Bad jobset declaration: ", msg.as_str()),
            Error::BuildNotFound(h) => join2("Build not found: ", h.to_string().as_str()),
            Error::BuildNotRunning(h) => join2("Build is not running: ", h.to_string().as_str()),
            Error::EvaluationNotFound(h) => join2(
                "Evaluation not found: ",
                h.to_string().as_str(),
            ),
            Error::EvaluationNotRunning(h) => join2(
                "Evaluation is not running: ",
                h.to_string().as_str(),
            ),
            Error::IllegalTransition(from, to) => {
                let head = join2("Illegal status transition: ", from.to_string().as_str());
                join3(head.as_str(), " to ", to.to_string().as_str())
            },
            Error::JobNotFound(h) => join2("Job not found: ", h.to_string().as_str()),
            Error::JobsetNotFound(h) => join2("Jobset not found: ", h.to_string().as_str()),
            Error::NixError(msg) => join2("Driver error: ", msg.as_str()),
            Error::ProjectAlreadyExists(h) => join2(
                "Project already exists: ",
                h.to_string().as_str(),
            ),
            Error::ProjectNotFound(h) => join2("Project not found: ", h.to_string().as_str()),
            Error::RunNotFound(h) => join2("Run not found: ", h.to_string().as_str()),
            Error::RunNotRunning(h) => join2("Run is not running: ", h.to_string().as_str()),
            Error::ShuttingDown => "Task manager is shutting down".to_owned(),
            Error::UnexpectedDatabaseError(msg) => join2(
                "Unexpected database error: ",
                msg.as_str(),
            ),
        }
    }
}

/// Whether a response error is the one that `e` turns into: the variant
/// of its class, carrying the message of `e` where the class has one.
pub open spec fn responds_to(r: ResponseError, e: Error) -> bool {
    match error_class(e) {
        ErrorClass::NotFound => r matches ResponseError::ResourceNotFound(m) && m@ == error_text(e),
        ErrorClass::Internal => r == ResponseError::InternalError(()),
        ErrorClass::BadRequest => r matches ResponseError::BadRequest(m) && m@ == error_text(e),
        ErrorClass::Forbidden => r matches ResponseError::Forbidden(m) && m@ == error_text(e),
    }
}

/// The class of a response error.
pub open spec fn response_class(r: ResponseError) -> ErrorClass {
    match r {
        ResponseError::ResourceNotFound(_) => ErrorClass::NotFound,
        ResponseError::InternalError(_) => ErrorClass::Internal,
        ResponseError::BadRequest(_) => ErrorClass::BadRequest,
        ResponseError::Forbidden(_) => ErrorClass::Forbidden,
    }
}

impl ResponseError {
    /// Turns an error into the response that carries it to the client.
    pub fn from(e: Error) -> (r: ResponseError)
        ensures
            responds_to(r, e),
            response_class(r) == error_class(e),
    {
        match e.class() {
            ErrorClass::NotFound => ResponseError::ResourceNotFound(e.to_string()),
            ErrorClass::Internal => ResponseError::InternalError(()),
            ErrorClass::BadRequest => ResponseError::BadRequest(e.to_string()),
            ErrorClass::Forbidden => ResponseError::Forbidden(e.to_string()),
        }
    }

    /// The status code under which the response is sent.
    pub fn status(&self) -> (code: u16)
        ensures
            code == class_code(response_class(*self)),
    {
        match self {
            ResponseError::ResourceNotFound(_) => 404,
            ResponseError::InternalError(_) => 500,
            ResponseError::BadRequest(_) => 400,
            ResponseError::Forbidden(_) => 403,
        }
    }
}

} // verus!
