//! Status kinds of a task and the rules of their progression.

use crate::text::str_eq;
use vstd::prelude::*;

verus! {

/// The persisted status kind of a task.
#[derive(Clone, Copy, Debug, PartialEq, Eq, Structural)]
pub enum TaskStatusKind {
    Pending,
    Running,
    Success,
    Error,
    Canceled,
}

/// The short string under which a status kind is persisted.
pub open spec fn kind_text(kind: TaskStatusKind) -> Seq<char> {
    match kind {
        TaskStatusKind::Pending => "pending"@,
        TaskStatusKind::Running => "running"@,
        TaskStatusKind::Success => "success"@,
        TaskStatusKind::Error => "error"@,
        TaskStatusKind::Canceled => "canceled"@,
    }
}

/// The status kind that a persisted string stands for, if any.
pub open spec fn parse_kind(text: Seq<char>) -> Option<TaskStatusKind> {
    if text == "pending"@ {
        Some(TaskStatusKind::Pending)
    } else if text == "running"@ {
        Some(TaskStatusKind::Running)
    } else if text == "success"@ {
        Some(TaskStatusKind::Success)
    } else if text == "error"@ {
        Some(TaskStatusKind::Error)
    } else if text == "canceled"@ {
        Some(TaskStatusKind::Canceled)
    } else {
        None
    }
}

/// A task moves from pending to running and from there to one of the three
/// terminal kinds; a pending task may also be canceled before it starts.
pub open spec fn legal_transition(from: TaskStatusKind, to: TaskStatusKind) -> bool {
    match from {
        TaskStatusKind::Pending => to == TaskStatusKind::Running || to == TaskStatusKind::Canceled,
        TaskStatusKind::Running => to == TaskStatusKind::Success || to == TaskStatusKind::Error
            || to == TaskStatusKind::Canceled,
        _ => false,
    }
}

/// Position of a kind along the progression: pending, running, terminal.
pub open spec fn kind_rank(kind: TaskStatusKind) -> nat {
    match kind {
        TaskStatusKind::Pending => 0,
        TaskStatusKind::Running => 1,
        _ => 2,
    }
}

impl TaskStatusKind {
    /// The kind as it is written to the database.
    pub fn to_string(&self) -> (text: String)
        ensures
            text@ == kind_text(*self),
    {
        match self {
            TaskStatusKind::Pending => "pending".to_owned(),
            TaskStatusKind::Running => "running".to_owned(),
            TaskStatusKind::Success => "success".to_owned(),
            TaskStatusKind::Error => "error".to_owned(),
            TaskStatusKind::Canceled => "canceled".to_owned(),
        }
    }

    /// Reads a kind back from the database; `None` for any string outside
    /// the closed set.
    pub fn from_string(text: &str) -> (kind: Option<TaskStatusKind>)
        ensures
            kind == parse_kind(text@),
    {
        if str_eq(text, "pending") {
            Some(TaskStatusKind::Pending)
        } else if str_eq(text, "running") {
            Some(TaskStatusKind::Running)
        } else if str_eq(text, "success") {
            Some(TaskStatusKind::Success)
        } else if str_eq(text, "error") {
            Some(TaskStatusKind::Error)
        } else if str_eq(text, "canceled") {
            Some(TaskStatusKind::Canceled)
        } else {
            None
        }
    }

    /// Whether the kind is one of success, error, canceled.
    pub fn is_terminal(&self) -> (terminal: bool)
        ensures
            terminal == (kind_rank(*self) == 2),
    {
        match self {
            TaskStatusKind::Pending | TaskStatusKind::Running => false,
            _ => true,
        }
    }

    /// Whether a task of this kind may move to `next`.
    pub fn can_become(&self, next: TaskStatusKind) -> (legal: bool)
        ensures
            legal == legal_transition(*self, next),
    {
        match self {
            TaskStatusKind::Pending => next == TaskStatusKind::Running || next
                == TaskStatusKind::Canceled,
            TaskStatusKind::Running => next == TaskStatusKind::Success || next
                == TaskStatusKind::Error || next == TaskStatusKind::Canceled,
            _ => false,
        }
    }
}

/// Every status kind survives being written as a string and read back.
pub proof fn lemma_kind_round_trip(kind: TaskStatusKind)
    ensures
        parse_kind(kind_text(kind)) == Some(kind),
{
    reveal_strlit("pending");
    reveal_strlit("running");
    reveal_strlit("success");
    reveal_strlit("error");
    reveal_strlit("canceled");
    assert("pending"@.len() == 7 && "pending"@[0] == 'p');
    assert("running"@.len() == 7 && "running"@[0] == 'r');
    assert("success"@.len() == 7 && "success"@[0] == 's');
    assert("error"@.len() == 5);
    assert("canceled"@.len() == 8);
}

/// A string is read as a kind only if it is that kind's own string.
pub proof fn lemma_parse_is_inverse(text: Seq<char>, kind: TaskStatusKind)
    requires
        parse_kind(text) == Some(kind),
    ensures
        kind_text(kind) == text,
{
}

/// Every legal transition moves strictly forward, so no status is ever
/// revisited and a terminal status is final.
pub proof fn lemma_transition_monotonic(from: TaskStatusKind, to: TaskStatusKind)
    requires
        legal_transition(from, to),
    ensures
        kind_rank(from) < kind_rank(to),
        kind_rank(from) < 2,
{
}

} // verus!
