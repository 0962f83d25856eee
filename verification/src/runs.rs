//! Runs: one attempt to carry a job through its begin action, its build
//! and its end action.

use crate::actions::{Action, ActionInput, NewAction};
use crate::builds::Build;
use crate::data::{kind_rank, kind_text, TaskStatusKind};
use crate::error::Error;
use crate::evaluations::{run_info, ActionRow, BuildRow};
use crate::events::Event;
use crate::handles;
use crate::models;
use crate::requests::RunSearch;
use crate::responses::RunInfo;
use crate::tasks;
use crate::tasks::Tasks;
use crate::Subject;
use vstd::prelude::*;

verus! {

/// A run with the phases it has reached, its job, its evaluation and its
/// project.
#[derive(Debug, PartialEq, Eq)]
pub struct Run {
    pub begin: Option<Action>,
    pub end: Option<Action>,
    pub build: Option<Build>,
    pub run: models::Run,
    pub job: models::Job,
    pub evaluation: models::Evaluation,
    pub project: models::Project,
}

fn clone_action(action: &Option<Action>) -> (copy: Option<Action>)
    ensures
        copy == *action,
{
    match action {
        Some(a) => Some(a.clone()),
        None => None,
    }
}

impl Clone for Run {
    fn clone(&self) -> (copy: Self)
        ensures
            copy == *self,
    {
        Run {
            begin: clone_action(&self.begin),
            end: clone_action(&self.end),
            build: match &self.build {
                Some(b) => Some(b.clone()),
                None => None,
            },
            run: self.run.clone(),
            job: self.job.clone(),
            evaluation: self.evaluation.clone(),
            project: self.project.clone(),
        }
    }
}

/// A run as the database holds it, with its job, evaluation and project.
#[derive(Debug, PartialEq, Eq)]
pub struct RunRow {
    pub run: models::Run,
    pub job: models::Job,
    pub evaluation: models::Evaluation,
    pub project: models::Project,
}

/// The handle of the run of a row: project, evaluation number, system,
/// job name and run number.
pub open spec fn row_handle(
    run: models::Run,
    job: models::Job,
    evaluation: models::Evaluation,
    project: models::Project,
) -> handles::Run {
    handles::Run {
        job: handles::Job {
            evaluation: handles::Evaluation {
                project: handles::Project { name: project.name },
                num: evaluation.num as u64,
            },
            system: job.system,
            name: job.name,
        },
        num: run.num as u64,
    }
}

/// The action of a phase: the one that was read, if the run holds its id.
pub open spec fn phase_action(
    row: Option<ActionRow>,
    id: Option<i32>,
    project: models::Project,
) -> Option<Action> {
    match (row, id) {
        (Some(r), Some(i)) => if r.0.id == i {
            Some(Action { task: tasks::Task { task: r.1 }, action: r.0, project })
        } else {
            None
        },
        _ => None,
    }
}

/// The build of a run: the one that was read, if the run holds its id.
pub open spec fn phase_build(row: Option<BuildRow>, id: Option<i32>) -> Option<Build> {
    match (row, id) {
        (Some(r), Some(i)) => if r.0.id == i {
            Some(Build { task: tasks::Task { task: r.1 }, build: r.0 })
        } else {
            None
        },
        _ => None,
    }
}

/// The run that a row and the rows of its phases make up.
pub open spec fn assembled(
    row: RunRow,
    begin: Option<ActionRow>,
    end: Option<ActionRow>,
    build: Option<BuildRow>,
) -> Run {
    Run {
        begin: phase_action(begin, row.run.begin_id, row.project),
        end: phase_action(end, row.run.end_id, row.project),
        build: phase_build(build, row.run.build_id),
        run: row.run,
        job: row.job,
        evaluation: row.evaluation,
        project: row.project,
    }
}

/// What a request finds under the handle of a run: the run with the
/// status of its end action once that action has ended, and a running
/// run before.
pub open spec fn run_subject(run: Run) -> Subject {
    match run.end {
        Some(end) => if kind_rank(end.task.task.status) == 2 {
            Subject::Task(end.task.task.status)
        } else {
            Subject::Task(TaskStatusKind::Running)
        },
        None => Subject::Task(TaskStatusKind::Running),
    }
}

/// Whether an optional criterion admits a string.
pub open spec fn admits(criterion: Option<String>, text: String) -> bool {
    match criterion {
        Some(wanted) => wanted@ == text@,
        None => true,
    }
}

/// Whether a run is what a search looks for: it meets each criterion that
/// the search gives.
pub open spec fn found(search: RunSearch, row: RunRow) -> bool {
    &&& admits(search.project_name, row.project.name)
    &&& admits(search.jobset_name, row.evaluation.jobset_name)
    &&& match search.evaluation_num {
        Some(num) => row.evaluation.num == num as i64,
        None => true,
    }
    &&& admits(search.job_name, row.job.name)
    &&& admits(search.job_system, row.job.system)
}

/// What a search hands out for a run: its handle and when it was created.
pub open spec fn hit(row: RunRow) -> (handles::Run, u64) {
    (row_handle(row.run, row.job, row.evaluation, row.project), row.run.time_created as u64)
}

/// The runs that a search finds among the rows, in the order of the rows.
pub open spec fn hits(search: RunSearch, rows: Seq<RunRow>) -> Seq<(handles::Run, u64)> {
    rows.filter(|row: RunRow| found(search, row)).map_values(|row: RunRow| hit(row))
}

/// The part of a list that a search hands out: it leaves out the first
/// `offset` entries and hands out at most `limit` of those that follow.
pub open spec fn paged<A>(list: Seq<A>, offset: nat, limit: nat) -> Seq<A> {
    if offset >= list.len() {
        Seq::empty()
    } else if offset + limit >= list.len() {
        list.subrange(offset as int, list.len() as int)
    } else {
        list.subrange(offset as int, (offset + limit) as int)
    }
}

/// Whether `input` is the input document of an action of `run` that is
/// told the status `status`.
pub open spec fn is_input(input: ActionInput, run: Run, status: TaskStatusKind) -> bool {
    &&& input.drv == run.job.drv
    &&& input.evaluation == run.evaluation.num
    &&& input.flake == run.evaluation.flake
    &&& input.job == run.job.name
    &&& input.jobset == run.evaluation.jobset_name
    &&& input.out == run.job.out
    &&& input.project == run.project.name
    &&& input.status@ == kind_text(status)
    &&& input.system == run.job.system
    &&& input.url == run.evaluation.url
}

/// The bundle in which the actions of a run are found: the one of its
/// evaluation, and a path that holds nothing where the evaluation has
/// none.
pub open spec fn actions_path(run: Run) -> Seq<char> {
    match run.evaluation.actions_path {
        Some(path) => path@,
        None => "/dev/null"@,
    }
}

/// The status that the end action of a run is told: canceled where the
/// run was canceled; error where the build has failed; success where the
/// build has succeeded; and where the build was dropped before it
/// returned, the failure of the begin action if it failed, canceled if
/// not.
pub open spec fn aggregate(
    canceled: bool,
    begin: TaskStatusKind,
    build: Option<Option<()>>,
) -> TaskStatusKind {
    if canceled {
        TaskStatusKind::Canceled
    } else {
        match build {
            Some(None) => TaskStatusKind::Error,
            Some(Some(_)) => TaskStatusKind::Success,
            None => if begin == TaskStatusKind::Error {
                TaskStatusKind::Error
            } else {
                TaskStatusKind::Canceled
            },
        }
    }
}

fn admits_text(criterion: &Option<String>, text: &String) -> (ok: bool)
    ensures
        ok == admits(*criterion, *text),
{
    match criterion {
        Some(wanted) => *wanted == *text,
        None => true,
    }
}

fn make_action(row: Option<ActionRow>, id: Option<i32>, project: &models::Project) -> (action:
    Option<Action>)
    ensures
        action == phase_action(row, id, *project),
{
    match row {
        Some((action, task)) => match id {
            Some(i) => if action.id == i {
                Some(Action { task: tasks::Task { task }, action, project: project.clone() })
            } else {
                None
            },
            None => None,
        },
        None => None,
    }
}

impl Run {
    /// Takes the canceler of the run out of the registry of runs, for it
    /// to be fired.
    pub fn cancel<C, H, W>(&self, runs: &mut Tasks<C, H, W>) -> (canceler: Option<C>)
        ensures
            final(runs)@ == old(runs)@.cancel(self.run.id).0,
            canceler == old(runs)@.cancel(self.run.id).1,
            old(runs)@.wf() ==> final(runs)@.wf(),
    {
        runs.cancel(self.run.id)
    }

    /// Assembles a run from what the database holds under `handle`: the
    /// row of the run with its job, evaluation and project, and the rows
    /// read for its phases. A phase belongs to the run only if the run
    /// holds its id. Where the database holds no row, the run is not
    /// found.
    pub fn get(
        handle: &handles::Run,
        row: Option<RunRow>,
        begin: Option<ActionRow>,
        end: Option<ActionRow>,
        build: Option<BuildRow>,
    ) -> (res: Result<Self, Error>)
        ensures
            match row {
                Some(r) => res == Ok::<Self, Error>(assembled(r, begin, end, build)),
                None => res == Err::<Self, Error>(Error::RunNotFound(*handle)),
            },
    {
        match row {
            None => Err(Error::RunNotFound(handle.clone())),
            Some(r) => {
                let begin = make_action(begin, r.run.begin_id, &r.project);
                let end = make_action(end, r.run.end_id, &r.project);
                let build = match build {
                    Some((build, task)) => match r.run.build_id {
                        Some(i) => if build.id == i {
                            Some(Build { task: tasks::Task { task }, build })
                        } else {
                            None
                        },
                        None => None,
                    },
                    None => None,
                };
                Ok(
                    Run {
                        begin,
                        end,
                        build,
                        run: r.run,
                        job: r.job,
                        evaluation: r.evaluation,
                        project: r.project,
                    },
                )
            },
        }
    }

    /// The handle of the run.
    pub fn handle(&self) -> (handle: handles::Run)
        ensures
            handle == row_handle(self.run, self.job, self.evaluation, self.project),
    {
        handles::run(
            (
                self.project.name.clone(),
                self.evaluation.num as u64,
                self.job.system.clone(),
                self.job.name.clone(),
                self.run.num as u64,
            ),
        )
    }

    /// The description of the run with the phases that it has reached.
    pub fn info(&self) -> (info: RunInfo)
        ensures
            info == run_info(
                row_handle(self.run, self.job, self.evaluation, self.project).job,
                self.run,
                match self.begin {
                    Some(a) => Some((a.action, a.task.task)),
                    None => None,
                },
                match self.build {
                    Some(b) => Some((b.build, b.task.task)),
                    None => None,
                },
                match self.end {
                    Some(a) => Some((a.action, a.task.task)),
                    None => None,
                },
            ),
    {
        let handle = self.handle();
        RunInfo::new(
            &handle.job,
            self.run.clone(),
            match &self.begin {
                Some(a) => Some(a.row()),
                None => None,
            },
            match &self.build {
                Some(b) => Some(b.row()),
                None => None,
            },
            match &self.end {
                Some(a) => Some(a.row()),
                None => None,
            },
        )
    }

    /// What a request finds under the handle of the run.
    pub fn subject(&self) -> (subject: Subject)
        ensures
            subject == run_subject(*self),
    {
        match &self.end {
            Some(end) => {
                let status = end.task.status_kind();
                if status.is_terminal() {
                    Subject::Task(status)
                } else {
                    Subject::Task(TaskStatusKind::Running)
                }
            },
            None => Subject::Task(TaskStatusKind::Running),
        }
    }

    /// The event that tells the subscribers of a change of the run.
    pub fn updated(&self) -> (event: Event)
        ensures
            event == Event::RunUpdated(
                row_handle(self.run, self.job, self.evaluation, self.project),
            ),
    {
        Event::RunUpdated(self.handle())
    }

    /// Starts the pipeline of the run: the state in which the begin
    /// action is awaited, and what is to be done first, which is to ask
    /// for the build and to spawn the begin action.
    pub fn run(&self) -> (start: (RunState, Vec<RunAction>))
        ensures
            start.0 == next(RunState::created(), RunEvent::Advance).0,
            start.1@ == next(RunState::created(), RunEvent::Advance).1,
    {
        let mut state = RunState::new();
        let actions = state.step(RunEvent::Advance);
        (state, actions)
    }

    /// The runs among `rows` that `search` looks for, in the order of the
    /// rows, each with its handle and the time of its creation.
    pub fn matching(search: &RunSearch, rows: &Vec<RunRow>) -> (all: Vec<(handles::Run, u64)>)
        ensures
            all@ == hits(*search, rows@),
    {
        let mut all: Vec<(handles::Run, u64)> = Vec::new();
        let ghost wanted = |row: RunRow| found(*search, row);
        let ghost shape = |row: RunRow| hit(row);
        let mut i: usize = 0;
        proof {
            assert(rows@.take(0) =~= Seq::<RunRow>::empty());
            reveal(Seq::filter);
            assert(rows@.take(0).filter(wanted).map_values(shape) =~= all@);
        }
        while i < rows.len()
            invariant
                i <= rows.len(),
                wanted == |row: RunRow| found(*search, row),
                shape == |row: RunRow| hit(row),
                all@ == rows@.take(i as int).filter(wanted).map_values(shape),
            decreases rows.len() - i,
        {
            let row = &rows[i];
            let is_found = admits_text(&search.project_name, &row.project.name) && admits_text(
                &search.jobset_name,
                &row.evaluation.jobset_name,
            ) && match search.evaluation_num {
                Some(num) => row.evaluation.num == num as i64,
                None => true,
            } && admits_text(&search.job_name, &row.job.name) && admits_text(
                &search.job_system,
                &row.job.system,
            );
            proof {
                reveal(Seq::filter);
                let before = rows@.take(i as int);
                let after = rows@.take(i as int + 1);
                assert(after.drop_last() =~= before);
                assert(after.last() == rows@[i as int]);
                assert(is_found == wanted(rows@[i as int]));
                if is_found {
                    assert(after.filter(wanted) == before.filter(wanted).push(rows@[i as int]));
                    assert(after.filter(wanted).map_values(shape) =~= before.filter(
                        wanted,
                    ).map_values(shape).push(shape(rows@[i as int])));
                } else {
                    assert(after.filter(wanted) == before.filter(wanted));
                }
            }
            if is_found {
                all.push(
                    (
                        handles::run(
                            (
                                row.project.name.clone(),
                                row.evaluation.num as u64,
                                row.job.system.clone(),
                                row.job.name.clone(),
                                row.run.num as u64,
                            ),
                        ),
                        row.run.time_created as u64,
                    ),
                );
            }
            i = i + 1;
        }
        proof {
            assert(rows@.take(rows@.len() as int) =~= rows@);
        }
        all
    }

    /// The page of runs that `search` asks for: of the runs among `rows`
    /// that it looks for, in the order of the rows, those after the first
    /// `offset`, and at most `limit` of them.
    pub fn search(search: &RunSearch, rows: &Vec<RunRow>) -> (page: Vec<(handles::Run, u64)>)
        ensures
            page@ == paged(hits(*search, rows@), search.offset as nat, search.limit as nat),
    {
        let all = Self::matching(search, rows);
        let mut page: Vec<(handles::Run, u64)> = Vec::new();
        let offset = search.offset as usize;
        let limit = search.limit as usize;
        if offset >= all.len() {
            return page;
        }
        let end = if limit >= all.len() - offset {
            all.len()
        } else {
            offset + limit
        };
        let mut i: usize = offset;
        while i < end
            invariant
                offset <= i <= end <= all.len(),
                page@ == all@.subrange(offset as int, i as int),
            decreases end - i,
        {
            page.push((all[i].0.clone(), all[i].1));
            proof {
                assert(page@ =~= all@.subrange(offset as int, i as int + 1));
            }
            i = i + 1;
        }
        page
    }

    /// The input document of an action of the run that is told `status`.
    pub fn mk_input(&self, status: TaskStatusKind) -> (res: Result<ActionInput, Error>)
        ensures
            res matches Ok(input) && is_input(input, *self, status),
    {
        Ok(
            ActionInput {
                drv: self.job.drv.clone(),
                evaluation: self.evaluation.num,
                flake: self.evaluation.flake,
                job: self.job.name.clone(),
                jobset: self.evaluation.jobset_name.clone(),
                out: self.job.out.clone(),
                project: self.project.name.clone(),
                status: status.to_string(),
                system: self.job.system.clone(),
                url: self.evaluation.url.clone(),
            },
        )
    }

    /// The action `name` of the run, to be created and started: its
    /// script is looked for in the bundle of the run's evaluation, and its
    /// input tells it `status`.
    pub fn spawn_action(&self, name: &str, status: TaskStatusKind) -> (res: Result<
        NewAction,
        Error,
    >)
        ensures
            res matches Ok(action) && action.path@ == actions_path(*self) && action.name@ == name@
                && is_input(action.input, *self, status),
    {
        let input = match self.mk_input(status) {
            Ok(input) => input,
            Err(e) => {
                return Err(e);
            },
        };
        let path = match &self.evaluation.actions_path {
            Some(path) => path.clone(),
            None => "/dev/null".to_owned(),
        };
        Ok(NewAction { path, name: name.to_owned(), input })
    }

    /// The status that the end action of the run is told.
    pub fn aggregate_status(
        canceled: bool,
        begin: TaskStatusKind,
        build: Option<Option<()>>,
    ) -> (status: TaskStatusKind)
        ensures
            status == aggregate(canceled, begin, build),
    {
        if canceled {
            TaskStatusKind::Canceled
        } else {
            match build {
                Some(None) => TaskStatusKind::Error,
                Some(Some(_)) => TaskStatusKind::Success,
                None => if begin == TaskStatusKind::Error {
                    TaskStatusKind::Error
                } else {
                    TaskStatusKind::Canceled
                },
            }
        }
    }
}

/// Where a run stands in its pipeline.
#[derive(Clone, Copy, Debug, PartialEq, Eq, Structural)]
pub enum Phase {
    /// The run is persisted and nothing was started.
    Created,
    /// The build was asked for and the begin action runs.
    BeginPending,
    /// The begin action has ended.
    BeginDone,
    /// The build is awaited.
    BuildPending,
    /// The build has ended and the status of the run is known.
    BuildDone,
    /// The end action was asked for.
    EndPending,
    /// The end action is persisted and the run has its status.
    Finished,
    /// The run was canceled.
    Canceled,
}

/// The two actions of a run.
#[derive(Clone, Copy, Debug, PartialEq, Eq, Structural)]
pub enum ActionName {
    Begin,
    End,
}

/// What happens to a run.
#[derive(Clone, Copy, Debug, PartialEq, Eq)]
pub enum RunEvent {
    /// What the previous step asked for was done: the pipeline may take
    /// its next step.
    Advance,
    /// The begin action was spawned and the build was handed out.
    BeginSpawned { begin_id: i32, build_id: i32 },
    /// The begin action has ended with a status.
    BeginFinished(TaskStatusKind),
    /// The build has ended: with its result, or with nothing where it was
    /// dropped before it returned.
    BuildFinished(Option<Option<()>>),
    /// The end action was spawned.
    EndSpawned { end_id: i32 },
    /// The end action is persisted and the finalizer has returned.
    Finalized,
    /// The run is canceled.
    Cancel,
    /// What waits for the phases of the run has failed.
    Failed,
}

/// What is to be done for a run.
#[derive(Clone, Copy, Debug, PartialEq, Eq, Structural)]
pub enum RunAction {
    /// Ask the build driver for the build of the run's derivation.
    SubmitBuild,
    /// Create and start an action of the run that is told a status.
    SpawnAction(ActionName, TaskStatusKind),
    /// Write the ids of the begin action and of the build to the run, in
    /// one transaction.
    Persist { begin_id: i32, build_id: i32 },
    /// Write the id of the end action to the run.
    PersistEnd { end_id: i32 },
    /// Announce that the run has changed.
    Emit,
    /// Wait for an action to end.
    AwaitAction(i32),
    /// Wait for a build to end.
    AwaitBuild(i32),
    /// Cancel an action.
    CancelAction(i32),
    /// Let go of a build, which cancels it if no other run holds it.
    ReleaseBuild(i32),
    /// Record the status of the run.
    Mark(TaskStatusKind),
}

/// The state of the pipeline of a run: its phase, the ids of the phases
/// that were started, the status with which the begin action has ended
/// and the status of the run once it is known.
#[derive(Clone, Copy, Debug, PartialEq, Eq, Structural)]
pub struct RunState {
    pub phase: Phase,
    pub begin_id: Option<i32>,
    pub build_id: Option<i32>,
    pub end_id: Option<i32>,
    pub begin_status: Option<TaskStatusKind>,
    pub status: Option<TaskStatusKind>,
}

/// Whether the pipeline has come to rest.
pub open spec fn terminal(phase: Phase) -> bool {
    phase == Phase::Finished || phase == Phase::Canceled
}

/// What is canceled with a run: the action that runs, and the run's hold
/// on its build while the build is still needed.
pub open spec fn cancellations(state: RunState) -> Seq<RunAction> {
    let action = match (state.phase, state.begin_id, state.end_id) {
        (Phase::BeginPending, Some(id), _) => seq![RunAction::CancelAction(id)],
        (Phase::EndPending, _, Some(id)) => seq![RunAction::CancelAction(id)],
        _ => Seq::<RunAction>::empty(),
    };
    let build = match (state.phase, state.build_id) {
        (Phase::BeginPending, Some(id)) => seq![RunAction::ReleaseBuild(id)],
        (Phase::BeginDone, Some(id)) => seq![RunAction::ReleaseBuild(id)],
        (Phase::BuildPending, Some(id)) => seq![RunAction::ReleaseBuild(id)],
        _ => Seq::<RunAction>::empty(),
    };
    action + build
}

/// Whether a failure of what waits for the phases of a run ends the
/// waiting: it does while the begin action or the build is awaited.
pub open spec fn fails(state: RunState) -> bool {
    state.begin_id is Some && (state.phase == Phase::BeginPending || state.phase
        == Phase::BeginDone || state.phase == Phase::BuildPending)
}

/// The state of a run after an event, and what is to be done then. An
/// event that does not fit the phase changes nothing. A failure while a
/// phase is awaited is no cancellation: the run goes on to its end action
/// with the status error.
pub open spec fn next(state: RunState, event: RunEvent) -> (RunState, Seq<RunAction>) {
    match (state.phase, event) {
        (Phase::Created, RunEvent::Advance) => (
            RunState { phase: Phase::BeginPending, ..state },
            seq![
                RunAction::SubmitBuild,
                RunAction::SpawnAction(ActionName::Begin, TaskStatusKind::Pending),
            ],
        ),
        (Phase::BeginPending, RunEvent::BeginSpawned { begin_id, build_id }) => if state.begin_id
            is None {
            (
                RunState { begin_id: Some(begin_id), build_id: Some(build_id), ..state },
                seq![
                    RunAction::Persist { begin_id, build_id },
                    RunAction::Emit,
                    RunAction::AwaitAction(begin_id),
                ],
            )
        } else {
            (state, Seq::empty())
        },
        (Phase::BeginPending, RunEvent::BeginFinished(status)) => if state.begin_id is Some {
            (
                RunState { phase: Phase::BeginDone, begin_status: Some(status), ..state },
                Seq::empty(),
            )
        } else {
            (state, Seq::empty())
        },
        (Phase::BeginDone, RunEvent::Advance) => (
            RunState { phase: Phase::BuildPending, ..state },
            match state.build_id {
                Some(id) => seq![RunAction::AwaitBuild(id)],
                None => Seq::empty(),
            },
        ),
        (Phase::BuildPending, RunEvent::BuildFinished(result)) => (
            RunState {
                phase: Phase::BuildDone,
                status: Some(
                    aggregate(
                        false,
                        match state.begin_status {
                            Some(s) => s,
                            None => TaskStatusKind::Pending,
                        },
                        result,
                    ),
                ),
                ..state
            },
            Seq::empty(),
        ),
        (Phase::BuildDone, RunEvent::Advance) => (
            RunState { phase: Phase::EndPending, ..state },
            match state.status {
                Some(s) => seq![RunAction::SpawnAction(ActionName::End, s)],
                None => Seq::empty(),
            },
        ),
        (Phase::EndPending, RunEvent::EndSpawned { end_id }) => if state.end_id is None {
            (
                RunState { end_id: Some(end_id), ..state },
                seq![RunAction::PersistEnd { end_id }, RunAction::Emit],
            )
        } else {
            (state, Seq::empty())
        },
        (Phase::EndPending, RunEvent::Finalized) => if state.end_id is Some {
            (
                RunState { phase: Phase::Finished, ..state },
                match state.status {
                    Some(s) => seq![RunAction::Mark(s)],
                    None => Seq::empty(),
                },
            )
        } else {
            (state, Seq::empty())
        },
        (_, RunEvent::Failed) => if fails(state) {
            (
                RunState {
                    phase: Phase::BuildDone,
                    begin_status: match state.begin_status {
                        Some(s) => Some(s),
                        None => Some(TaskStatusKind::Error),
                    },
                    status: Some(TaskStatusKind::Error),
                    ..state
                },
                Seq::empty(),
            )
        } else {
            (state, Seq::empty())
        },
        (_, RunEvent::Cancel) => if terminal(state.phase) {
            (state, Seq::empty())
        } else {
            (
                RunState {
                    phase: Phase::Canceled,
                    status: Some(TaskStatusKind::Canceled),
                    ..state
                },
                cancellations(state).push(RunAction::Mark(TaskStatusKind::Canceled)),
            )
        },
        _ => (state, Seq::empty()),
    }
}

/// The state of a run after a history of events.
pub open spec fn after(state: RunState, events: Seq<RunEvent>) -> RunState
    decreases events.len(),
{
    if events.len() == 0 {
        state
    } else {
        next(after(state, events.drop_last()), events.last()).0
    }
}

impl RunState {
    /// The state of a run that was persisted and not started.
    pub open spec fn created() -> RunState {
        RunState {
            phase: Phase::Created,
            begin_id: None,
            build_id: None,
            end_id: None,
            begin_status: None,
            status: None,
        }
    }

    /// The state fits together: the ids of the begin action and of the
    /// build are there together, the id of the end action only after
    /// them, and each phase holds what the phases before it have left.
    pub open spec fn wf(self) -> bool {
        &&& self.begin_id is Some <==> self.build_id is Some
        &&& self.end_id is Some ==> self.begin_id is Some
        &&& match self.phase {
            Phase::Created => self.begin_id is None && self.end_id is None && self.begin_status
                is None && self.status is None,
            Phase::BeginPending => self.end_id is None && self.begin_status is None && self.status
                is None,
            Phase::BeginDone | Phase::BuildPending => self.begin_id is Some && self.end_id is None
                && self.begin_status is Some && self.status is None,
            Phase::BuildDone => self.begin_id is Some && self.end_id is None && self.begin_status
                is Some && self.status is Some,
            Phase::EndPending => self.begin_id is Some && self.begin_status is Some && self.status
                is Some,
            Phase::Finished => self.begin_id is Some && self.end_id is Some && self.begin_status
                is Some && self.status is Some,
            Phase::Canceled => self.status == Some(TaskStatusKind::Canceled),
        }
    }

    /// The state of a run that was persisted and not started.
    pub fn new() -> (state: RunState)
        ensures
            state == RunState::created(),
            state.wf(),
    {
        RunState {
            phase: Phase::Created,
            begin_id: None,
            build_id: None,
            end_id: None,
            begin_status: None,
            status: None,
        }
    }

    /// Whether the pipeline has come to rest.
    pub fn is_terminal(&self) -> (done: bool)
        ensures
            done == terminal(self.phase),
    {
        match self.phase {
            Phase::Finished | Phase::Canceled => true,
            _ => false,
        }
    }

    fn cancel_actions(&self) -> (actions: Vec<RunAction>)
        ensures
            actions@ == cancellations(*self),
    {
        let mut actions: Vec<RunAction> = Vec::new();
        match self.phase {
            Phase::BeginPending => {
                match self.begin_id {
                    Some(id) => {
                        actions.push(RunAction::CancelAction(id));
                    },
                    None => {},
                }
                match self.build_id {
                    Some(id) => {
                        actions.push(RunAction::ReleaseBuild(id));
                    },
                    None => {},
                }
            },
            Phase::BeginDone | Phase::BuildPending => {
                match self.build_id {
                    Some(id) => {
                        actions.push(RunAction::ReleaseBuild(id));
                    },
                    None => {},
                }
            },
            Phase::EndPending => {
                match self.end_id {
                    Some(id) => {
                        actions.push(RunAction::CancelAction(id));
                    },
                    None => {},
                }
            },
            _ => {},
        }
        assert(actions@ =~= cancellations(*self));
        actions
    }

    /// Takes one event: moves the run on as the event asks and hands back
    /// what is to be done, in order.
    pub fn step(&mut self, event: RunEvent) -> (actions: Vec<RunAction>)
        ensures
            *final(self) == next(*old(self), event).0,
            actions@ == next(*old(self), event).1,
            old(self).wf() ==> final(self).wf(),
    {
        let mut actions: Vec<RunAction> = Vec::new();
        match event {
            RunEvent::Cancel => {
                if !self.is_terminal() {
                    actions = self.cancel_actions();
                    actions.push(RunAction::Mark(TaskStatusKind::Canceled));
                    self.phase = Phase::Canceled;
                    self.status = Some(TaskStatusKind::Canceled);
                }
            },
            RunEvent::Failed => {
                let waiting = match self.phase {
                    Phase::BeginPending | Phase::BeginDone | Phase::BuildPending => true,
                    _ => false,
                };
                if waiting && self.begin_id.is_some() {
                    self.phase = Phase::BuildDone;
                    if self.begin_status.is_none() {
                        self.begin_status = Some(TaskStatusKind::Error);
                    }
                    self.status = Some(TaskStatusKind::Error);
                }
            },
            RunEvent::Advance => {
                match self.phase {
                    Phase::Created => {
                        self.phase = Phase::BeginPending;
                        actions.push(RunAction::SubmitBuild);
                        actions.push(
                            RunAction::SpawnAction(ActionName::Begin, TaskStatusKind::Pending),
                        );
                    },
                    Phase::BeginDone => {
                        self.phase = Phase::BuildPending;
                        match self.build_id {
                            Some(id) => {
                                actions.push(RunAction::AwaitBuild(id));
                            },
                            None => {},
                        }
                    },
                    Phase::BuildDone => {
                        self.phase = Phase::EndPending;
                        match self.status {
                            Some(s) => {
                                actions.push(RunAction::SpawnAction(ActionName::End, s));
                            },
                            None => {},
                        }
                    },
                    _ => {},
                }
            },
            RunEvent::BeginSpawned { begin_id, build_id } => {
                match self.phase {
                    Phase::BeginPending => {
                        if self.begin_id.is_none() {
                            self.begin_id = Some(begin_id);
                            self.build_id = Some(build_id);
                            actions.push(RunAction::Persist { begin_id, build_id });
                            actions.push(RunAction::Emit);
                            actions.push(RunAction::AwaitAction(begin_id));
                        }
                    },
                    _ => {},
                }
            },
            RunEvent::BeginFinished(status) => {
                match self.phase {
                    Phase::BeginPending => {
                        if self.begin_id.is_some() {
                            self.phase = Phase::BeginDone;
                            self.begin_status = Some(status);
                        }
                    },
                    _ => {},
                }
            },
            RunEvent::BuildFinished(result) => {
                match self.phase {
                    Phase::BuildPending => {
                        let begin = match self.begin_status {
                            Some(s) => s,
                            None => TaskStatusKind::Pending,
                        };
                        self.phase = Phase::BuildDone;
                        self.status = Some(Run::aggregate_status(false, begin, result));
                    },
                    _ => {},
                }
            },
            RunEvent::EndSpawned { end_id } => {
                match self.phase {
                    Phase::EndPending => {
                        if self.end_id.is_none() {
                            self.end_id = Some(end_id);
                            actions.push(RunAction::PersistEnd { end_id });
                            actions.push(RunAction::Emit);
                        }
                    },
                    _ => {},
                }
            },
            RunEvent::Finalized => {
                match self.phase {
                    Phase::EndPending => {
                        if self.end_id.is_some() {
                            self.phase = Phase::Finished;
                            match self.status {
                                Some(s) => {
                                    actions.push(RunAction::Mark(s));
                                },
                                None => {},
                            }
                        }
                    },
                    _ => {},
                }
            },
        }
        assert(actions@ =~= next(*old(self), event).1);
        actions
    }
}

/// The name of the script of each of the two actions.
pub open spec fn script(name: ActionName) -> Seq<char> {
    match name {
        ActionName::Begin => "begin"@,
        ActionName::End => "end"@,
    }
}

impl ActionName {
    /// The name of the script of the action.
    pub fn as_str(&self) -> (name: &'static str)
        ensures
            name@ == script(*self),
    {
        match self {
            ActionName::Begin => "begin",
            ActionName::End => "end",
        }
    }
}

/// A run whose phase ids fit together: those of the begin action and of
/// the build are there together, and that of the end action only after
/// them.
pub open spec fn phases_ordered(run: models::Run) -> bool {
    &&& run.begin_id is Some <==> run.build_id is Some
    &&& run.end_id is Some ==> run.begin_id is Some
}

/// The row of a run after it was told to persist what an action says:
/// the ids of the begin action and of the build are written together
/// where neither is there yet; the id of the end action is written where
/// it is not there yet and the other two are; nothing else is written.
pub open spec fn persisted(run: models::Run, action: RunAction) -> models::Run {
    match action {
        RunAction::Persist { begin_id, build_id } => if run.begin_id is None && run.build_id
            is None && run.end_id is None {
            models::Run { begin_id: Some(begin_id), build_id: Some(build_id), ..run }
        } else {
            run
        },
        RunAction::PersistEnd { end_id } => if run.end_id is None && run.begin_id is Some
            && run.build_id is Some {
            models::Run { end_id: Some(end_id), ..run }
        } else {
            run
        },
        _ => run,
    }
}

impl models::Run {
    /// Writes to the row what `action` says is to be persisted. A phase
    /// id that the row holds is never written again.
    pub fn persist(&mut self, action: RunAction)
        ensures
            *final(self) == persisted(*old(self), action),
            phases_ordered(*old(self)) ==> phases_ordered(*final(self)),
    {
        match action {
            RunAction::Persist { begin_id, build_id } => {
                if self.begin_id.is_none() && self.build_id.is_none() && self.end_id.is_none() {
                    self.begin_id = Some(begin_id);
                    self.build_id = Some(build_id);
                }
            },
            RunAction::PersistEnd { end_id } => {
                if self.end_id.is_none() && self.begin_id.is_some() && self.build_id.is_some() {
                    self.end_id = Some(end_id);
                }
            },
            _ => {},
        }
    }
}

/// The row of a run after a list of actions was persisted, in order.
pub open spec fn persisted_all(run: models::Run, actions: Seq<RunAction>) -> models::Run
    decreases actions.len(),
{
    if actions.len() == 0 {
        run
    } else {
        persisted(persisted_all(run, actions.drop_last()), actions.last())
    }
}

/// Whatever is persisted to the row of a run, and in whatever order, a
/// phase id that the row holds stays as it is, and the ids are written in
/// the order of the phases: the id of the end action is never there
/// without those of the begin action and of the build.
pub proof fn lemma_phase_ids_written_once(run: models::Run, actions: Seq<RunAction>)
    requires
        phases_ordered(run),
    ensures
        phases_ordered(persisted_all(run, actions)),
        run.begin_id is Some ==> persisted_all(run, actions).begin_id == run.begin_id,
        run.build_id is Some ==> persisted_all(run, actions).build_id == run.build_id,
        run.end_id is Some ==> persisted_all(run, actions).end_id == run.end_id,
        persisted_all(run, actions).id == run.id,
        persisted_all(run, actions).num == run.num,
        persisted_all(run, actions).job_id == run.job_id,
    decreases actions.len(),
{
    if actions.len() > 0 {
        lemma_phase_ids_written_once(run, actions.drop_last());
    }
}

/// Every event leaves a state that fits together fitting together, and
/// leaves each phase id that was set as it is.
pub proof fn lemma_step(state: RunState, event: RunEvent)
    requires
        state.wf(),
    ensures
        next(state, event).0.wf(),
        state.begin_id is Some ==> next(state, event).0.begin_id == state.begin_id,
        state.build_id is Some ==> next(state, event).0.build_id == state.build_id,
        state.end_id is Some ==> next(state, event).0.end_id == state.end_id,
{
}

/// Whatever happens to a run, and in whatever order, its state fits
/// together and each phase id that was set stays as it is: the ids are
/// set in the order begin, build, end and never overwritten.
pub proof fn lemma_phases_in_order(state: RunState, events: Seq<RunEvent>)
    requires
        state.wf(),
    ensures
        after(state, events).wf(),
        state.begin_id is Some ==> after(state, events).begin_id == state.begin_id,
        state.build_id is Some ==> after(state, events).build_id == state.build_id,
        state.end_id is Some ==> after(state, events).end_id == state.end_id,
    decreases events.len(),
{
    if events.len() > 0 {
        lemma_phases_in_order(state, events.drop_last());
        lemma_step(after(state, events.drop_last()), events.last());
    }
}

/// A run that has come to rest stays as it is: once canceled, no further
/// phase is started, and once finished, nothing is done again.
pub proof fn lemma_rest_is_final(state: RunState, events: Seq<RunEvent>)
    requires
        terminal(state.phase),
    ensures
        after(state, events) == state,
        forall|i: int|
            0 <= i < events.len() ==> next(state, #[trigger] events[i]).1 == Seq::<
                RunAction,
            >::empty(),
    decreases events.len(),
{
    if events.len() > 0 {
        lemma_rest_is_final(state, events.drop_last());
    }
}

/// Whatever happens to a run from its creation on: once the begin action
/// has ended, the run has the ids of its begin action and of its build
/// unless it was canceled before they were there, and a run finishes only
/// with all three phase ids.
pub proof fn lemma_finished_has_all_phases(events: Seq<RunEvent>)
    ensures
        after(RunState::created(), events).wf(),
        after(RunState::created(), events).phase == Phase::Finished ==> after(
            RunState::created(),
            events,
        ).begin_id is Some && after(RunState::created(), events).build_id is Some && after(
            RunState::created(),
            events,
        ).end_id is Some,
        after(RunState::created(), events).phase != Phase::Created && after(
            RunState::created(),
            events,
        ).phase != Phase::BeginPending && after(RunState::created(), events).phase
            != Phase::Canceled ==> after(RunState::created(), events).begin_id is Some,
{
    lemma_phases_in_order(RunState::created(), events);
}

/// In a canceled run without an end action, none is ever recorded: after
/// a cancellation no further phase is started.
pub proof fn lemma_no_end_after_cancel(state: RunState, events: Seq<RunEvent>)
    requires
        state.phase == Phase::Canceled,
        state.end_id is None,
    ensures
        after(state, events).end_id is None,
        after(state, events).phase == Phase::Canceled,
{
    lemma_rest_is_final(state, events);
}

} // verus!
