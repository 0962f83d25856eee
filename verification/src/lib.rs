//! Orchestration kernel of a continuous-integration service.
//!
//! The crate holds the decisions of the service as verified, synchronous
//! functions over plain values: the task registry, the status store, the
//! run pipeline, the evaluation lifecycle and the request dispatcher. The
//! asynchronous runtime, the database and the web server live outside and
//! drive these functions.

pub mod actions;
pub mod builds;
pub mod data;
pub mod drv_log;
pub mod error;
pub mod evaluations;
pub mod events;
pub mod gcroots;
pub mod handles;
pub mod jobs;
pub mod jobsets;
pub mod models;
pub mod nix;
pub mod nums;
pub mod projects;
pub mod requests;
pub mod responses;
pub mod runs;
pub mod shutdown;
pub mod status;
pub mod tasks;
pub mod text;

pub use error::ResponseError;
pub use events::Event;

use data::{kind_rank, TaskStatusKind};
use error::Error;
use vstd::prelude::*;

verus! {

/// The settings of the service.
#[derive(Debug, PartialEq, Eq)]
pub struct Settings {
    pub hashed_password: String,
    pub webroot: String,
}

/// Who sends a request.
#[derive(Clone, Copy, Debug, PartialEq, Eq, Structural)]
pub enum User {
    Admin,
    Anonymous,
}

/// The SHA-256 digest of the bytes of a string, written in hexadecimal.
pub uninterp spec fn sha256_hex(input: Seq<char>) -> Seq<char>;

/// Calls `sha256::digest` on a string slice. The digest is a function of
/// the characters of its input alone; what it is, is left to the crate.
#[verifier::external_body]
fn digest(input: &str) -> (hash: String)
    ensures
        hash@ == sha256_hex(input@),
{
    sha256::digest(input)
}

/// Who a sender is whose password has the digest `hash`: the
/// administrator exactly if the digest is the one in the settings.
pub open spec fn user_of_hash(hash: Seq<char>, hashed_password: Seq<char>) -> User {
    if hash == hashed_password {
        User::Admin
    } else {
        User::Anonymous
    }
}

/// Who the sender of a request is: the administrator exactly if the
/// request carries a password whose digest is the one in the settings.
pub open spec fn user_of(password: Option<Seq<char>>, hashed_password: Seq<char>) -> User {
    match password {
        Some(p) => user_of_hash(sha256_hex(p), hashed_password),
        None => User::Anonymous,
    }
}

impl User {
    /// Whether the user is the administrator.
    pub fn is_admin(&self) -> (admin: bool)
        ensures
            admin == (*self == User::Admin),
    {
        match self {
            User::Admin => true,
            _ => false,
        }
    }

    /// Who a sender is whose password has the digest `hash`.
    pub fn from_hash(hash: &str, hashed_password: &str) -> (user: User)
        ensures
            user == user_of_hash(hash@, hashed_password@),
    {
        if text::str_eq(hash, hashed_password) {
            User::Admin
        } else {
            User::Anonymous
        }
    }

    /// Who the sender of a request is, from the password that the request
    /// carries, if it carries one.
    pub fn from_request(password: Option<&str>, settings: &Settings) -> (user: User)
        ensures
            user == user_of(
                match password {
                    Some(p) => Some(p@),
                    None => None,
                },
                settings.hashed_password@,
            ),
    {
        match password {
            Some(p) => {
                let hash = digest(p);
                User::from_hash(hash.as_str(), settings.hashed_password.as_str())
            },
            None => User::Anonymous,
        }
    }
}

/// Whether a request only reads.
pub open spec fn reads(req: requests::Request) -> bool {
    match req {
        requests::Request::ListProjects => true,
        requests::Request::Project(_, requests::Project::Info) => true,
        requests::Request::Jobset(_, requests::Jobset::Info) => true,
        requests::Request::Evaluation(_, requests::Evaluation::Info) => true,
        requests::Request::Job(_, requests::Job::Info) => true,
        requests::Request::Build(_, requests::Build::Info) => true,
        requests::Request::Run(_, requests::Run::Info) => true,
        requests::Request::Search(_) => true,
        _ => false,
    }
}

/// Whether a user may send a request: anyone may read, and the
/// administrator may do everything.
pub open spec fn authorized(user: User, req: requests::Request) -> bool {
    reads(req) || user == User::Admin
}

/// What the database holds under the handle of a request.
#[derive(Clone, Copy, Debug, PartialEq, Eq, Structural)]
pub enum Subject {
    /// Nothing.
    Missing,
    /// An entity.
    Present,
    /// An entity whose task has this status.
    Task(TaskStatusKind),
}

/// Whether a request asks to cancel what it addresses.
pub open spec fn cancels(req: requests::Request) -> bool {
    match req {
        requests::Request::Evaluation(_, requests::Evaluation::Cancel) => true,
        requests::Request::Build(_, requests::Build::Cancel) => true,
        requests::Request::Run(_, requests::Run::Cancel) => true,
        _ => false,
    }
}

/// The error of a request that asks for an entity that is not there.
pub open spec fn not_found(req: requests::Request) -> Option<Error> {
    match req {
        requests::Request::Project(h, _) => Some(Error::ProjectNotFound(h)),
        requests::Request::Jobset(h, _) => Some(Error::JobsetNotFound(h)),
        requests::Request::Evaluation(h, _) => Some(Error::EvaluationNotFound(h)),
        requests::Request::Job(h, _) => Some(Error::JobNotFound(h)),
        requests::Request::Build(h, _) => Some(Error::BuildNotFound(h)),
        requests::Request::Run(h, _) => Some(Error::RunNotFound(h)),
        _ => None,
    }
}

/// The error of a request that asks to cancel what has ended.
pub open spec fn not_running(req: requests::Request) -> Option<Error> {
    match req {
        requests::Request::Evaluation(h, requests::Evaluation::Cancel) => Some(
            Error::EvaluationNotRunning(h),
        ),
        requests::Request::Build(h, requests::Build::Cancel) => Some(Error::BuildNotRunning(h)),
        requests::Request::Run(h, requests::Run::Cancel) => Some(Error::RunNotRunning(h)),
        _ => None,
    }
}

/// Why a request is refused, if it is: a request that the user may not
/// send is denied; a project is not created under a name that is taken;
/// a request for an entity that is not there finds nothing; and what has
/// ended is not canceled.
pub open spec fn refusal(user: User, req: requests::Request, subject: Subject) -> Option<Error> {
    if !authorized(user, req) {
        Some(Error::AccessDenied)
    } else {
        match req {
            requests::Request::CreateProject(h) => if subject != Subject::Missing {
                Some(Error::ProjectAlreadyExists(h))
            } else {
                None
            },
            _ => match subject {
                Subject::Missing => not_found(req),
                Subject::Present => None,
                Subject::Task(kind) => if cancels(req) && kind_rank(kind) == 2 {
                    not_running(req)
                } else {
                    None
                },
            },
        }
    }
}

/// Whether a user may send a request.
pub fn authorize_request(user: &User, req: &requests::Request) -> (ok: bool)
    ensures
        ok == authorized(*user, *req),
{
    match req {
        requests::Request::ListProjects
        | requests::Request::Project(_, requests::Project::Info)
        | requests::Request::Jobset(_, requests::Jobset::Info)
        | requests::Request::Evaluation(_, requests::Evaluation::Info)
        | requests::Request::Job(_, requests::Job::Info)
        | requests::Request::Build(_, requests::Build::Info)
        | requests::Request::Run(_, requests::Run::Info)
        | requests::Request::Search(_) => true,
        _ => user.is_admin(),
    }
}

/// Decides whether a request is served, given what the database holds
/// under the handle of the request: `Ok` where it is, and the reason
/// where it is refused.
pub fn handle_request_aux(user: &User, req: &requests::Request, subject: Subject) -> (res: Result<
    (),
    Error,
>)
    ensures
        match refusal(*user, *req, subject) {
            Some(e) => res == Err::<(), Error>(e),
            None => res == Ok::<(), Error>(()),
        },
{
    if !authorize_request(user, req) {
        return Err(Error::AccessDenied);
    }
    match req {
        requests::Request::ListProjects => Ok(()),
        requests::Request::Search(_) => Ok(()),
        requests::Request::CreateProject(h) => match subject {
            Subject::Missing => Ok(()),
            _ => Err(Error::ProjectAlreadyExists(h.clone())),
        },
        requests::Request::Project(h, _) => match subject {
            Subject::Missing => Err(Error::ProjectNotFound(h.clone())),
            _ => Ok(()),
        },
        requests::Request::Jobset(h, _) => match subject {
            Subject::Missing => Err(Error::JobsetNotFound(h.clone())),
            _ => Ok(()),
        },
        requests::Request::Evaluation(h, op) => match subject {
            Subject::Missing => Err(Error::EvaluationNotFound(h.clone())),
            Subject::Present => Ok(()),
            Subject::Task(kind) => match op {
                requests::Evaluation::Cancel => if kind.is_terminal() {
                    Err(Error::EvaluationNotRunning(h.clone()))
                } else {
                    Ok(())
                },
                requests::Evaluation::Info => Ok(()),
            },
        },
        requests::Request::Job(h, _) => match subject {
            Subject::Missing => Err(Error::JobNotFound(h.clone())),
            _ => Ok(()),
        },
        requests::Request::Build(h, op) => match subject {
            Subject::Missing => Err(Error::BuildNotFound(h.clone())),
            Subject::Present => Ok(()),
            Subject::Task(kind) => match op {
                requests::Build::Cancel => if kind.is_terminal() {
                    Err(Error::BuildNotRunning(h.clone()))
                } else {
                    Ok(())
                },
                _ => Ok(()),
            },
        },
        requests::Request::Run(h, op) => match subject {
            Subject::Missing => Err(Error::RunNotFound(h.clone())),
            Subject::Present => Ok(()),
            Subject::Task(kind) => match op {
                requests::Run::Cancel => if kind.is_terminal() {
                    Err(Error::RunNotRunning(h.clone()))
                } else {
                    Ok(())
                },
                requests::Run::Info => Ok(()),
            },
        },
    }
}

/// Decides whether a request is served, as `handle_request_aux` does,
/// and turns the reason of a refusal into the response that carries it.
pub fn handle_request(user: User, req: requests::Request, subject: Subject) -> (res: Result<
    (),
    ResponseError,
>)
    ensures
        match refusal(user, req, subject) {
            Some(e) => res matches Err(r) && error::responds_to(r, e),
            None => res == Ok::<(), ResponseError>(()),
        },
{
    match handle_request_aux(&user, &req, subject) {
        Ok(()) => Ok(()),
        Err(e) => Err(ResponseError::from(e)),
    }
}

} // verus!
