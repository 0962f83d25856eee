//! The status store: the record of each task's status and log.

use crate::data::{kind_rank, legal_transition, TaskStatusKind};
use crate::error::Error;
use crate::models::Task;
use crate::responses::TaskStatus;
use vstd::prelude::*;
use vstd::string::*;

verus! {

/// A record is well formed when its timestamps fit its status: a pending
/// task has none, a running task has started and not finished, and a
/// task in a terminal status has finished.
pub open spec fn task_wf(task: Task) -> bool {
    match task.status {
        TaskStatusKind::Pending => task.time_started is None && task.time_finished is None,
        TaskStatusKind::Running => task.time_started is Some && task.time_finished is None,
        _ => task.time_finished is Some,
    }
}

/// The status of a record, with its timing.
pub open spec fn task_status(task: Task) -> TaskStatus {
    TaskStatus {
        kind: task.status,
        time_started: task.time_started,
        time_finished: task.time_finished,
    }
}

/// The record after a legal move to `kind` at time `now`: a task that
/// starts running records when it started, a task that reaches a terminal
/// status records when it finished.
pub open spec fn moved(task: Task, kind: TaskStatusKind, now: i64) -> Task {
    if kind == TaskStatusKind::Running {
        Task { status: kind, time_started: Some(now), ..task }
    } else {
        Task { status: kind, time_finished: Some(now), ..task }
    }
}

/// Whether a record was left behind by a process that is gone.
pub open spec fn interrupted(task: Task) -> bool {
    task.status == TaskStatusKind::Pending || task.status == TaskStatusKind::Running
}

impl Task {
    /// A fresh record: pending, without timestamps, with an empty log.
    pub fn new(id: i32) -> (task: Task)
        ensures
            task.id == id,
            task.status == TaskStatusKind::Pending,
            task.time_started is None,
            task.time_finished is None,
            task.log@ == Seq::<char>::empty(),
            task_wf(task),
    {
        Task {
            id,
            status: TaskStatusKind::Pending,
            time_started: None,
            time_finished: None,
            log: String::new(),
        }
    }

    /// The status kind of the record.
    pub fn status_kind(&self) -> (kind: TaskStatusKind)
        ensures
            kind == self.status,
    {
        self.status
    }

    /// The status of the record with its timing.
    pub fn status(&self) -> (status: TaskStatus)
        ensures
            status == task_status(*self),
    {
        TaskStatus {
            kind: self.status,
            time_started: self.time_started,
            time_finished: self.time_finished,
        }
    }

    /// Moves the record to `kind` at time `now` if the progression allows
    /// it, and rejects the move otherwise, leaving the record as it was.
    pub fn set_status(&mut self, kind: TaskStatusKind, now: i64) -> (res: Result<(), Error>)
        ensures
            legal_transition(old(self).status, kind) ==> res is Ok && *final(self) == moved(
                *old(self),
                kind,
                now,
            ),
            !legal_transition(old(self).status, kind) ==> res == Err::<(), Error>(
                Error::IllegalTransition(old(self).status, kind),
            ) && *final(self) == *old(self),
            task_wf(*old(self)) ==> task_wf(*final(self)),
    {
        if !self.status.can_become(kind) {
            return Err(Error::IllegalTransition(self.status, kind));
        }
        if kind == TaskStatusKind::Running {
            self.time_started = Some(now);
        } else {
            self.time_finished = Some(now);
        }
        self.status = kind;
        Ok(())
    }

    /// Appends one chunk to the log, followed by a line break.
    pub fn append_log(&mut self, chunk: &str)
        ensures
            final(self).log@ == old(self).log@ + chunk@ + "\n"@,
            final(self).id == old(self).id,
            final(self).status == old(self).status,
            final(self).time_started == old(self).time_started,
            final(self).time_finished == old(self).time_finished,
    {
        self.log.append(chunk);
        self.log.append("\n");
    }

    /// The whole log written so far.
    pub fn read_log(&self) -> (log: String)
        ensures
            log@ == self.log@,
    {
        self.log.clone()
    }

    /// Settles a record found at start-up: a task that was pending or
    /// running when the process went away is marked as failed at time
    /// `now`, and its log says why. Any other record is left alone.
    /// Returns whether the record was rewritten.
    pub fn reconcile(&mut self, now: i64) -> (rewritten: bool)
        ensures
            rewritten == interrupted(*old(self)),
            interrupted(*old(self)) ==> {
                &&& final(self).status == TaskStatusKind::Error
                &&& final(self).time_finished == Some(now)
                &&& final(self).time_started == old(self).time_started
                &&& final(self).id == old(self).id
                &&& final(self).log@ == old(self).log@ + "interrupted"@ + "\n"@
            },
            !interrupted(*old(self)) ==> *final(self) == *old(self),
            !interrupted(*final(self)),
            task_wf(*old(self)) ==> task_wf(*final(self)),
    {
        match self.status {
            TaskStatusKind::Pending | TaskStatusKind::Running => {
                self.status = TaskStatusKind::Error;
                self.time_finished = Some(now);
                self.append_log("interrupted");
                true
            },
            _ => false,
        }
    }
}

/// Settles every record found at start-up and returns how many were
/// rewritten.
pub fn reconcile_all(tasks: &mut Vec<Task>, now: i64) -> (count: usize)
    ensures
        final(tasks)@.len() == old(tasks)@.len(),
        forall|i: int|
            0 <= i < old(tasks)@.len() ==> !interrupted(#[trigger] final(tasks)@[i])
                && final(tasks)@[i].id == old(tasks)@[i].id && (!interrupted(old(tasks)@[i])
                ==> final(tasks)@[i] == old(tasks)@[i]) && (interrupted(old(tasks)@[i])
                ==> final(tasks)@[i].status == TaskStatusKind::Error
                && final(tasks)@[i].time_finished == Some(now)),
        count == old(tasks)@.filter(|t: Task| interrupted(t)).len(),
{
    let mut count: usize = 0;
    let mut i: usize = 0;
    let n = tasks.len();
    proof {
        assert(old(tasks)@.take(0) =~= Seq::<Task>::empty());
    }
    while i < n
        invariant
            n == tasks@.len(),
            n == old(tasks)@.len(),
            i <= n,
            count <= i,
            count == old(tasks)@.take(i as int).filter(|t: Task| interrupted(t)).len(),
            forall|j: int| i <= j < n ==> tasks@[j] == old(tasks)@[j],
            forall|j: int|
                0 <= j < i ==> !interrupted(#[trigger] tasks@[j]) && tasks@[j].id == old(
                    tasks,
                )@[j].id && (!interrupted(old(tasks)@[j]) ==> tasks@[j] == old(tasks)@[j]) && (
                interrupted(old(tasks)@[j]) ==> tasks@[j].status == TaskStatusKind::Error
                    && tasks@[j].time_finished == Some(now)),
        decreases n - i,
    {
        let mut task = tasks[i].clone();
        let rewritten = task.reconcile(now);
        tasks.set(i, task);
        proof {
            let pred = |t: Task| interrupted(t);
            let before = old(tasks)@.take(i as int);
            let after = old(tasks)@.take(i as int + 1);
            reveal(Seq::filter);
            assert(after.drop_last() =~= before);
        }
        if rewritten {
            count = count + 1;
        }
        i = i + 1;
    }
    proof {
        assert(old(tasks)@.take(n as int) =~= old(tasks)@);
    }
    count
}

/// The record after a list of moves was asked for, in order: each legal
/// move is made, each illegal one is rejected and changes nothing.
pub open spec fn moved_all(task: Task, moves: Seq<(TaskStatusKind, i64)>) -> Task
    decreases moves.len(),
{
    if moves.len() == 0 {
        task
    } else {
        let before = moved_all(task, moves.drop_last());
        if legal_transition(before.status, moves.last().0) {
            moved(before, moves.last().0, moves.last().1)
        } else {
            before
        }
    }
}

/// Whatever moves are asked of a record, its status never goes back: a
/// well-formed record stays well formed, a record that has started keeps
/// the time it started at, and a record that has ended stays exactly as
/// it ended.
pub proof fn lemma_status_never_goes_back(task: Task, moves: Seq<(TaskStatusKind, i64)>)
    requires
        task_wf(task),
    ensures
        task_wf(moved_all(task, moves)),
        kind_rank(task.status) <= kind_rank(moved_all(task, moves).status),
        kind_rank(task.status) >= 1 ==> moved_all(task, moves).time_started == task.time_started,
        kind_rank(task.status) == 2 ==> moved_all(task, moves) == task,
        moved_all(task, moves).id == task.id,
        moved_all(task, moves).log == task.log,
    decreases moves.len(),
{
    if moves.len() > 0 {
        lemma_status_never_goes_back(task, moves.drop_last());
    }
}

} // verus!
