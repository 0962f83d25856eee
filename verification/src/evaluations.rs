//! Evaluations: the expansion of a jobset into jobs, and the description
//! of those jobs with their latest runs.

use crate::data::TaskStatusKind;
use crate::error::Error;
use crate::handles;
use crate::models;
use crate::models::clone_opt_string;
use crate::nix;
use crate::responses::{ActionInfo, BuildInfo, EvaluationInfo, JobInfo, JobSystemName, RunInfo};
use crate::status::task_status;
use crate::tasks;
use crate::tasks::Tasks;
use crate::text::{lines_of, split_lines, texts};
use std::collections::HashMap;
use vstd::prelude::*;

verus! {

broadcast use vstd::std_specs::hash::group_hash_axioms;

/// An evaluation with its task and the project it belongs to.
#[derive(Debug, PartialEq, Eq)]
pub struct Evaluation {
    pub task: tasks::Task,
    pub evaluation: models::Evaluation,
    pub project: models::Project,
}

impl Clone for Evaluation {
    fn clone(&self) -> (copy: Self)
        ensures
            copy == *self,
    {
        Evaluation {
            task: self.task.clone(),
            evaluation: self.evaluation.clone(),
            project: self.project.clone(),
        }
    }
}

/// An action with its task, as read from the database.
pub type ActionRow = (models::Action, models::Task);

/// A build with its task, as read from the database.
pub type BuildRow = (models::Build, models::Task);

/// One job with one of its runs and the phases of that run.
#[derive(Debug, PartialEq, Eq)]
pub struct JobRow {
    pub job: models::Job,
    pub run: models::Run,
    pub begin: Option<ActionRow>,
    pub build: Option<BuildRow>,
    pub end: Option<ActionRow>,
}

fn clone_action_row(row: &Option<ActionRow>) -> (copy: Option<ActionRow>)
    ensures
        copy == *row,
{
    match row {
        Some((action, task)) => Some((action.clone(), task.clone())),
        None => None,
    }
}

fn clone_build_row(row: &Option<BuildRow>) -> (copy: Option<BuildRow>)
    ensures
        copy == *row,
{
    match row {
        Some((build, task)) => Some((build.clone(), task.clone())),
        None => None,
    }
}

impl Clone for JobRow {
    fn clone(&self) -> (copy: Self)
        ensures
            copy == *self,
    {
        JobRow {
            job: self.job.clone(),
            run: self.run.clone(),
            begin: clone_action_row(&self.begin),
            build: clone_build_row(&self.build),
            end: clone_action_row(&self.end),
        }
    }
}

/// The description of an action of `project`.
pub open spec fn action_info(project: handles::Project, row: ActionRow) -> ActionInfo {
    ActionInfo {
        handle: handles::Action { project, num: row.0.num as u64 },
        input: row.0.input,
        path: row.0.path,
        status: task_status(row.1),
    }
}

/// The description of a build.
pub open spec fn build_info(row: BuildRow) -> BuildInfo {
    BuildInfo {
        handle: handles::Build { drv: row.0.drv, num: row.0.num as u64 },
        drv: row.0.drv,
        status: task_status(row.1),
    }
}

/// The description of a run of the job `job_handle` with the phases that
/// it has reached.
pub open spec fn run_info(
    job_handle: handles::Job,
    run: models::Run,
    begin: Option<ActionRow>,
    build: Option<BuildRow>,
    end: Option<ActionRow>,
) -> RunInfo {
    RunInfo {
        handle: handles::Run { job: job_handle, num: run.num as u64 },
        begin: match begin {
            Some(row) => Some(action_info(job_handle.evaluation.project, row)),
            None => None,
        },
        build: match build {
            Some(row) => Some(build_info(row)),
            None => None,
        },
        end: match end {
            Some(row) => Some(action_info(job_handle.evaluation.project, row)),
            None => None,
        },
    }
}

/// The handle of `job` within the evaluation `eval_handle`.
pub open spec fn job_handle(eval_handle: handles::Evaluation, job: models::Job) -> handles::Job {
    handles::Job { evaluation: eval_handle, system: job.system, name: job.name }
}

/// The description of a job with its run `run`, of which it has
/// `run_count` in all.
pub open spec fn job_info(
    eval_handle: handles::Evaluation,
    job: models::Job,
    run: models::Run,
    run_count: u32,
    begin: Option<ActionRow>,
    build: Option<BuildRow>,
    end: Option<ActionRow>,
) -> JobInfo {
    JobInfo {
        handle: job_handle(eval_handle, job),
        dist: job.dist,
        drv: job.drv,
        out: job.out,
        system: job.system,
        last_run: run_info(job_handle(eval_handle, job), run, begin, build, end),
        run_count,
    }
}

fn new_action_info(project: &handles::Project, row: ActionRow) -> (info: ActionInfo)
    ensures
        info == action_info(*project, row),
{
    let (action, task) = row;
    ActionInfo {
        handle: handles::Action { project: project.clone(), num: action.num as u64 },
        input: action.input,
        path: action.path,
        status: task.status(),
    }
}

impl RunInfo {
    /// Shapes the rows of a run into its description.
    pub fn new(
        job_handle: &handles::Job,
        run: models::Run,
        begin: Option<ActionRow>,
        build: Option<BuildRow>,
        end: Option<ActionRow>,
    ) -> (info: Self)
        ensures
            info == run_info(*job_handle, run, begin, build, end),
    {
        RunInfo {
            handle: handles::Run { job: job_handle.clone(), num: run.num as u64 },
            begin: match begin {
                Some(row) => Some(new_action_info(&job_handle.evaluation.project, row)),
                None => None,
            },
            build: match build {
                Some((build, task)) => Some(
                    BuildInfo {
                        handle: handles::Build { drv: build.drv.clone(), num: build.num as u64 },
                        drv: build.drv,
                        status: task.status(),
                    },
                ),
                None => None,
            },
            end: match end {
                Some(row) => Some(new_action_info(&job_handle.evaluation.project, row)),
                None => None,
            },
        }
    }
}

impl JobInfo {
    /// Shapes the rows of a job and of one of its runs into the job's
    /// description.
    pub fn new(
        eval_handle: &handles::Evaluation,
        job: models::Job,
        run: models::Run,
        run_count: u32,
        begin: Option<ActionRow>,
        build: Option<BuildRow>,
        end: Option<ActionRow>,
    ) -> (info: Self)
        ensures
            info == job_info(*eval_handle, job, run, run_count, begin, build, end),
    {
        let job_handle = handles::Job {
            evaluation: eval_handle.clone(),
            system: job.system.clone(),
            name: job.name.clone(),
        };
        JobInfo {
            handle: job_handle.clone(),
            dist: job.dist,
            drv: job.drv,
            out: job.out,
            system: job.system,
            last_run: RunInfo::new(&job_handle, run, begin, build, end),
            run_count,
        }
    }
}

/// The name of a job, as the pair of what its two strings hold.
pub type JobKey = (Seq<char>, Seq<char>);

/// The key of a job name.
pub open spec fn name_key(name: JobSystemName) -> JobKey {
    (name.system@, name.name@)
}

/// The key of the job of a row.
pub open spec fn row_key(row: JobRow) -> JobKey {
    (row.job.system@, row.job.name@)
}

/// Whether a row belongs to the evaluation `eval_id` and, where a name is
/// asked for, to the job of that name.
pub open spec fn row_selected(eval_id: i32, filter: Option<JobSystemName>, row: JobRow) -> bool {
    row.job.evaluation_id == eval_id && match filter {
        Some(name) => row_key(row) == name_key(name),
        None => true,
    }
}

/// How many runs the job of a run has: the count recorded under the run's
/// id, and one where none is recorded.
pub open spec fn run_count(counts: Map<i32, i64>, run_id: i32) -> u32 {
    if counts.contains_key(run_id) {
        counts[run_id] as u32
    } else {
        1
    }
}

/// The description of the job of a row.
pub open spec fn row_info(
    eval_handle: handles::Evaluation,
    counts: Map<i32, i64>,
    row: JobRow,
) -> JobInfo {
    job_info(
        eval_handle,
        row.job,
        row.run,
        run_count(counts, row.run.id),
        row.begin,
        row.build,
        row.end,
    )
}

/// The jobs that a list of rows describes: for each job name among the
/// selected rows, the description made from the last row of that name.
pub open spec fn jobs_of(
    eval_handle: handles::Evaluation,
    eval_id: i32,
    filter: Option<JobSystemName>,
    rows: Seq<JobRow>,
    counts: Map<i32, i64>,
) -> Map<JobKey, JobInfo>
    decreases rows.len(),
{
    if rows.len() == 0 {
        Map::empty()
    } else {
        let rest = jobs_of(eval_handle, eval_id, filter, rows.drop_last(), counts);
        let row = rows.last();
        if row_selected(eval_id, filter, row) {
            rest.insert(row_key(row), row_info(eval_handle, counts, row))
        } else {
            rest
        }
    }
}

/// The map that a list of named descriptions stands for.
pub open spec fn entries_map(entries: Seq<(JobSystemName, JobInfo)>) -> Map<JobKey, JobInfo>
    decreases entries.len(),
{
    if entries.len() == 0 {
        Map::empty()
    } else {
        entries_map(entries.drop_last()).insert(name_key(entries.last().0), entries.last().1)
    }
}

/// No job name occurs twice in the list.
pub open spec fn keys_distinct(entries: Seq<(JobSystemName, JobInfo)>) -> bool {
    forall|i: int, j: int|
        0 <= i < j < entries.len() ==> name_key(#[trigger] entries[i].0) != name_key(
            #[trigger] entries[j].0,
        )
}

/// A name is in the map of a list exactly if some entry of the list
/// carries it.
pub proof fn lemma_entries_map_has(entries: Seq<(JobSystemName, JobInfo)>, k: JobKey)
    ensures
        entries_map(entries).contains_key(k) <==> exists|i: int|
            0 <= i < entries.len() && name_key(#[trigger] entries[i].0) == k,
    decreases entries.len(),
{
    if entries.len() > 0 {
        let front = entries.drop_last();
        lemma_entries_map_has(front, k);
        if entries_map(entries).contains_key(k) {
            if k == name_key(entries.last().0) {
                assert(name_key(entries[entries.len() - 1].0) == k);
            } else {
                assert(entries_map(front).contains_key(k));
                let i = choose|i: int| 0 <= i < front.len() && name_key(#[trigger] front[i].0) == k;
                assert(name_key(entries[i].0) == k);
            }
        }
        if exists|i: int| 0 <= i < entries.len() && name_key(#[trigger] entries[i].0) == k {
            let i = choose|i: int| 0 <= i < entries.len() && name_key(#[trigger] entries[i].0) == k;
            if i < entries.len() - 1 {
                assert(name_key(front[i].0) == k);
            }
        }
    }
}

/// Where no name occurs twice, the map of a list holds under the name of
/// each entry that entry's description.
pub proof fn lemma_entries_map_at(entries: Seq<(JobSystemName, JobInfo)>, i: int)
    requires
        keys_distinct(entries),
        0 <= i < entries.len(),
    ensures
        entries_map(entries).contains_key(name_key(entries[i].0)),
        entries_map(entries)[name_key(entries[i].0)] == entries[i].1,
    decreases entries.len(),
{
    let front = entries.drop_last();
    if i < entries.len() - 1 {
        assert forall|a: int, b: int| 0 <= a < b < front.len() implies name_key(
            #[trigger] front[a].0,
        ) != name_key(#[trigger] front[b].0) by {
            assert(front[a] == entries[a]);
            assert(front[b] == entries[b]);
        }
        lemma_entries_map_at(front, i);
        assert(front[i] == entries[i]);
        assert(name_key(entries[i].0) != name_key(entries[entries.len() - 1].0));
    }
}

/// Replacing the description under a name that the list already holds
/// changes the map exactly as an insertion under that name does.
pub proof fn lemma_entries_map_update(
    entries: Seq<(JobSystemName, JobInfo)>,
    j: int,
    entry: (JobSystemName, JobInfo),
)
    requires
        keys_distinct(entries),
        0 <= j < entries.len(),
        name_key(entries[j].0) == name_key(entry.0),
    ensures
        keys_distinct(entries.update(j, entry)),
        entries_map(entries.update(j, entry)) == entries_map(entries).insert(
            name_key(entry.0),
            entry.1,
        ),
{
    let updated = entries.update(j, entry);
    assert forall|a: int, b: int| 0 <= a < b < updated.len() implies name_key(
        #[trigger] updated[a].0,
    ) != name_key(#[trigger] updated[b].0) by {
        assert(name_key(entries[a].0) != name_key(entries[b].0));
    }
    let lhs = entries_map(updated);
    let rhs = entries_map(entries).insert(name_key(entry.0), entry.1);
    assert forall|k: JobKey| lhs.contains_key(k) == rhs.contains_key(k) by {
        lemma_entries_map_has(entries, k);
        lemma_entries_map_has(updated, k);
        if lhs.contains_key(k) {
            let i = choose|i: int| 0 <= i < updated.len() && name_key(#[trigger] updated[i].0) == k;
            assert(name_key(entries[i].0) == k);
        }
        if entries_map(entries).contains_key(k) {
            let i = choose|i: int| 0 <= i < entries.len() && name_key(#[trigger] entries[i].0) == k;
            assert(name_key(updated[i].0) == k);
        }
        if k == name_key(entry.0) {
            assert(name_key(updated[j].0) == k);
        }
    }
    assert forall|k: JobKey| lhs.contains_key(k) implies lhs[k] == rhs[k] by {
        lemma_entries_map_has(updated, k);
        let i = choose|i: int| 0 <= i < updated.len() && name_key(#[trigger] updated[i].0) == k;
        lemma_entries_map_at(updated, i);
        if i != j {
            lemma_entries_map_at(entries, i);
        }
    }
    assert(lhs =~= rhs);
}

/// The handle of an evaluation: the name of its project and its number.
pub open spec fn evaluation_handle(e: Evaluation) -> handles::Evaluation {
    handles::Evaluation {
        project: handles::Project { name: e.project.name },
        num: e.evaluation.num as u64,
    }
}

/// The row of a job that an evaluation found, before it is persisted: the
/// recorded output is the last of the derivation's outputs.
pub open spec fn new_job_row(evaluation_id: i32, job: nix::NewJob) -> models::NewJob {
    models::NewJob {
        dist: job.dist,
        drv: job.drv.path,
        evaluation_id,
        name: job.name,
        out: job.drv.outputs@.last().1,
        system: job.system,
    }
}

/// The rows of the jobs that an evaluation found, in the order in which
/// they were found.
pub open spec fn new_job_rows(evaluation_id: i32, found: Seq<nix::NewJob>) -> Seq<models::NewJob> {
    found.map_values(|job: nix::NewJob| new_job_row(evaluation_id, job))
}

/// The first run of each job, all created at the same time.
pub open spec fn first_runs(jobs: Seq<models::Job>, time_created: i64) -> Seq<NewRun> {
    jobs.map_values(|job: models::Job| NewRun { job_id: job.id, num: 1, time_created })
}

/// The status with which an evaluation ends once its jobs and runs were
/// persisted, or could not be.
pub open spec fn created_status(persisted: bool) -> TaskStatusKind {
    if persisted {
        TaskStatusKind::Success
    } else {
        TaskStatusKind::Error
    }
}

/// The lines that the log of an evaluation gets from its evaluator: the
/// lines of the message of a failure, and nothing after a success.
pub open spec fn failure_lines(res: Result<nix::NewJobs, nix::Error>) -> Seq<Seq<char>> {
    match res {
        Ok(_) => Seq::empty(),
        Err(e) => lines_of(e.message@),
    }
}

/// Whether each job that was found has an output.
pub open spec fn all_have_outputs(found: Seq<nix::NewJob>) -> bool {
    forall|i: int| 0 <= i < found.len() ==> (#[trigger] found[i]).drv.outputs@.len() > 0
}

/// Whether each job that was found has an output.
pub fn have_outputs(new_jobs: &nix::NewJobs) -> (ok: bool)
    ensures
        ok == all_have_outputs(new_jobs@),
{
    let mut i: usize = 0;
    while i < new_jobs.len()
        invariant
            i <= new_jobs.len(),
            forall|k: int| 0 <= k < i ==> (#[trigger] new_jobs@[k]).drv.outputs@.len() > 0,
        decreases new_jobs.len() - i,
    {
        if new_jobs[i].drv.outputs.len() == 0 {
            assert(!((#[trigger] new_jobs@[i as int]).drv.outputs@.len() > 0));
            return false;
        }
        i = i + 1;
    }
    true
}

/// How an evaluation goes on once its evaluator has returned.
#[derive(Debug, PartialEq, Eq)]
pub enum Finish {
    /// The jobs to persist, each with a first run.
    Create(Vec<models::NewJob>),
    /// Nothing to persist: the evaluation ends with this status.
    Done(TaskStatusKind),
}

/// The first run of a job, before it is persisted.
#[derive(Clone, Copy, Debug, PartialEq, Eq, Structural)]
pub struct NewRun {
    pub job_id: i32,
    pub num: i64,
    pub time_created: i64,
}

impl Evaluation {
    /// Assembles an evaluation from what the database holds under
    /// `handle`; where it holds nothing, the evaluation is not found.
    pub fn get(
        handle: &handles::Evaluation,
        row: Option<(models::Evaluation, models::Project, models::Task)>,
    ) -> (res: Result<Self, Error>)
        ensures
            match row {
                Some((evaluation, project, task)) => res == Ok::<Self, Error>(
                    Evaluation { task: tasks::Task { task }, evaluation, project },
                ),
                None => res == Err::<Self, Error>(Error::EvaluationNotFound(*handle)),
            },
    {
        match row {
            Some((evaluation, project, task)) => Ok(
                Evaluation { task: tasks::Task { task }, evaluation, project },
            ),
            None => Err(Error::EvaluationNotFound(handle.clone())),
        }
    }

    /// The handle of the evaluation.
    pub fn handle(&self) -> (handle: handles::Evaluation)
        ensures
            handle == evaluation_handle(*self),
    {
        handles::evaluation((self.project.name.clone(), self.evaluation.num as u64))
    }

    /// The jobs of the evaluation `eval_id` among `rows`, each described
    /// with the run of its last row; where `filter_system_name` is given,
    /// only the job of that name. `runs_per_job` holds the recorded run
    /// counts.
    pub fn jobs(
        eval_handle: &handles::Evaluation,
        eval_id: i32,
        filter_system_name: Option<JobSystemName>,
        rows: &Vec<JobRow>,
        runs_per_job: &HashMap<i32, i64>,
    ) -> (jobs: Vec<(JobSystemName, JobInfo)>)
        ensures
            keys_distinct(jobs@),
            entries_map(jobs@) == jobs_of(
                *eval_handle,
                eval_id,
                filter_system_name,
                rows@,
                runs_per_job@,
            ),
    {
        let mut jobs: Vec<(JobSystemName, JobInfo)> = Vec::new();
        let mut i: usize = 0;
        proof {
            assert(rows@.take(0) =~= Seq::<JobRow>::empty());
        }
        while i < rows.len()
            invariant
                i <= rows.len(),
                keys_distinct(jobs@),
                entries_map(jobs@) == jobs_of(
                    *eval_handle,
                    eval_id,
                    filter_system_name,
                    rows@.take(i as int),
                    runs_per_job@,
                ),
            decreases rows.len() - i,
        {
            proof {
                assert(rows@.take(i as int + 1).drop_last() =~= rows@.take(i as int));
                assert(rows@.take(i as int + 1).last() == rows@[i as int]);
            }
            let row = rows[i].clone();
            let selected = row.job.evaluation_id == eval_id && match &filter_system_name {
                Some(name) => row.job.system == name.system && row.job.name == name.name,
                None => true,
            };
            if selected {
                let run_count = match runs_per_job.get(&row.run.id) {
                    Some(count) => *count as u32,
                    None => 1u32,
                };
                let name = JobSystemName {
                    system: row.job.system.clone(),
                    name: row.job.name.clone(),
                };
                let info = JobInfo::new(
                    eval_handle,
                    row.job,
                    row.run,
                    run_count,
                    row.begin,
                    row.build,
                    row.end,
                );
                let mut j: usize = 0;
                while j < jobs.len() && !(jobs[j].0.system == name.system && jobs[j].0.name
                    == name.name)
                    invariant
                        j <= jobs.len(),
                        forall|m: int| 0 <= m < j ==> name_key(#[trigger] jobs@[m].0) != name_key(name),
                    decreases jobs.len() - j,
                {
                    j = j + 1;
                }
                if j < jobs.len() {
                    proof {
                        lemma_entries_map_update(jobs@, j as int, (name, info));
                    }
                    jobs.set(j, (name, info));
                } else {
                    proof {
                        let pushed = jobs@.push((name, info));
                        assert(pushed.drop_last() =~= jobs@);
                        assert forall|a: int, b: int| 0 <= a < b < pushed.len() implies name_key(
                            #[trigger] pushed[a].0,
                        ) != name_key(#[trigger] pushed[b].0) by {
                            if b < jobs@.len() {
                                assert(name_key(jobs@[a].0) != name_key(jobs@[b].0));
                            } else {
                                assert(name_key(jobs@[a].0) != name_key(name));
                            }
                        }
                    }
                    jobs.push((name, info));
                }
            }
            i = i + 1;
        }
        proof {
            assert(rows@.take(rows@.len() as int) =~= rows@);
        }
        jobs
    }

    /// The description of the evaluation. Its jobs are listed once it has
    /// succeeded, and not before.
    pub fn info(&self, rows: &Vec<JobRow>, runs_per_job: &HashMap<i32, i64>) -> (info:
        EvaluationInfo)
        ensures
            info.handle == evaluation_handle(*self),
            info.actions_path == self.evaluation.actions_path,
            info.flake == self.evaluation.flake,
            info.jobset_name == self.evaluation.jobset_name,
            info.status == task_status(self.task.task),
            info.time_created == self.evaluation.time_created,
            info.url == self.evaluation.url,
            keys_distinct(info.jobs@),
            entries_map(info.jobs@) == if self.task.task.status == TaskStatusKind::Success {
                jobs_of(
                    evaluation_handle(*self),
                    self.evaluation.id,
                    None,
                    rows@,
                    runs_per_job@,
                )
            } else {
                Map::<JobKey, JobInfo>::empty()
            },
            self.task.task.status != TaskStatusKind::Success ==> info.jobs@.len() == 0,
    {
        let handle = self.handle();
        let jobs = if self.task.status_kind() == TaskStatusKind::Success {
            Self::jobs(&handle, self.evaluation.id, None, rows, runs_per_job)
        } else {
            Vec::new()
        };
        EvaluationInfo {
            handle,
            actions_path: clone_opt_string(&self.evaluation.actions_path),
            flake: self.evaluation.flake,
            jobs,
            jobset_name: self.evaluation.jobset_name.clone(),
            status: self.task.status(),
            time_created: self.evaluation.time_created,
            url: self.evaluation.url.clone(),
        }
    }

    /// The log of the evaluation's task.
    pub fn log(&self) -> (log: String)
        ensures
            log@ == self.task.task.log@,
    {
        self.task.log()
    }

    /// The rows of the jobs that the evaluation found, in the order in
    /// which they were found.
    pub fn create_new_jobs(&self, new_jobs: &nix::NewJobs) -> (rows: Vec<models::NewJob>)
        requires
            all_have_outputs(new_jobs@),
        ensures
            rows@ == new_job_rows(self.evaluation.id, new_jobs@),
    {
        let mut rows: Vec<models::NewJob> = Vec::new();
        let mut i: usize = 0;
        while i < new_jobs.len()
            invariant
                i <= new_jobs.len(),
                all_have_outputs(new_jobs@),
                rows@ == new_job_rows(self.evaluation.id, new_jobs@.take(i as int)),
            decreases new_jobs.len() - i,
        {
            let job = &new_jobs[i];
            let last = job.drv.outputs.len() - 1;
            rows.push(
                models::NewJob {
                    dist: job.dist,
                    drv: job.drv.path.clone(),
                    evaluation_id: self.evaluation.id,
                    name: job.name.clone(),
                    out: job.drv.outputs[last].1.clone(),
                    system: job.system.clone(),
                },
            );
            proof {
                assert(new_jobs@.take(i as int + 1) =~= new_jobs@.take(i as int).push(
                    new_jobs@[i as int],
                ));
                assert(rows@ =~= new_job_rows(self.evaluation.id, new_jobs@.take(i as int + 1)));
            }
            i = i + 1;
        }
        proof {
            assert(new_jobs@.take(new_jobs@.len() as int) =~= new_jobs@);
        }
        rows
    }

    /// The first run of each persisted job, created at `time_created`.
    pub fn new_runs(jobs: &Vec<models::Job>, time_created: i64) -> (runs: Vec<NewRun>)
        ensures
            runs@ == first_runs(jobs@, time_created),
    {
        let mut runs: Vec<NewRun> = Vec::new();
        let mut i: usize = 0;
        while i < jobs.len()
            invariant
                i <= jobs.len(),
                runs@ == first_runs(jobs@.take(i as int), time_created),
            decreases jobs.len() - i,
        {
            runs.push(NewRun { job_id: jobs[i].id, num: 1, time_created });
            proof {
                assert(jobs@.take(i as int + 1) =~= jobs@.take(i as int).push(jobs@[i as int]));
                assert(runs@ =~= first_runs(jobs@.take(i as int + 1), time_created));
            }
            i = i + 1;
        }
        proof {
            assert(jobs@.take(jobs@.len() as int) =~= jobs@);
        }
        runs
    }

    /// Takes the canceler of the evaluation out of the registry of
    /// evaluations, for it to be fired.
    pub fn cancel<C, H, W>(&self, evaluations: &mut Tasks<C, H, W>) -> (canceler: Option<C>)
        ensures
            final(evaluations)@ == old(evaluations)@.cancel(self.task.task.id).0,
            canceler == old(evaluations)@.cancel(self.task.task.id).1,
            old(evaluations)@.wf() ==> final(evaluations)@.wf(),
    {
        evaluations.cancel(self.task.task.id)
    }

    /// What the log of the evaluation gets once its evaluator has
    /// returned with `res`: after a failure, the lines of its message.
    pub fn run(&self, res: &Result<nix::NewJobs, nix::Error>) -> (lines: Vec<String>)
        ensures
            texts(lines@) == failure_lines(*res),
    {
        match res {
            Err(e) => split_lines(e.message.as_str()),
            Ok(_) => {
                let lines: Vec<String> = Vec::new();
                assert(texts(lines@) =~= Seq::empty());
                lines
            },
        }
    }

    /// Decides how the evaluation goes on once its evaluator has returned:
    /// with jobs found they are to be persisted, after a failure of the
    /// evaluator the evaluation has failed, and without an outcome it was
    /// canceled.
    pub fn finish(&self, r: Option<Result<nix::NewJobs, nix::Error>>) -> (next: Finish)
        requires
            r matches Some(Ok(new_jobs)) ==> all_have_outputs(new_jobs@),
        ensures
            match r {
                Some(Ok(new_jobs)) => next matches Finish::Create(rows) && rows@ == new_job_rows(
                    self.evaluation.id,
                    new_jobs@,
                ),
                Some(Err(_)) => next == Finish::Done(TaskStatusKind::Error),
                None => next == Finish::Done(TaskStatusKind::Canceled),
            },
    {
        match r {
            Some(Ok(new_jobs)) => Finish::Create(self.create_new_jobs(&new_jobs)),
            Some(Err(_)) => Finish::Done(TaskStatusKind::Error),
            None => Finish::Done(TaskStatusKind::Canceled),
        }
    }

    /// Decides how the evaluation goes on, as `finish` does, for any
    /// outcome of the evaluator: jobs without an output cannot be
    /// persisted, and an evaluation that found one has failed.
    pub fn finish_checked(&self, r: Option<Result<nix::NewJobs, nix::Error>>) -> (next: Finish)
        ensures
            match r {
                Some(Ok(new_jobs)) => if all_have_outputs(new_jobs@) {
                    next matches Finish::Create(rows) && rows@ == new_job_rows(
                        self.evaluation.id,
                        new_jobs@,
                    )
                } else {
                    next == Finish::Done(TaskStatusKind::Error)
                },
                Some(Err(_)) => next == Finish::Done(TaskStatusKind::Error),
                None => next == Finish::Done(TaskStatusKind::Canceled),
            },
    {
        let complete = match &r {
            Some(Ok(new_jobs)) => have_outputs(new_jobs),
            _ => true,
        };
        if !complete {
            return Finish::Done(TaskStatusKind::Error);
        }
        self.finish(r)
    }

    /// The status with which the evaluation ends once its jobs and runs
    /// were persisted, or could not be.
    pub fn finish_created(created: &Result<(), Error>) -> (status: TaskStatusKind)
        ensures
            status == created_status(created is Ok),
    {
        match created {
            Ok(_) => TaskStatusKind::Success,
            Err(_) => TaskStatusKind::Error,
        }
    }
}

/// An evaluation that finds no job persists no job, creates no run and
/// ends in success.
pub proof fn lemma_empty_evaluation(
    evaluation_id: i32,
    found: Seq<nix::NewJob>,
    time_created: i64,
)
    requires
        found.len() == 0,
    ensures
        new_job_rows(evaluation_id, found).len() == 0,
        first_runs(Seq::<models::Job>::empty(), time_created).len() == 0,
        created_status(true) == TaskStatusKind::Success,
{
}

/// One job is persisted for each job found and one run is created for
/// each job persisted, the first of its job.
pub proof fn lemma_one_run_per_job(
    evaluation_id: i32,
    found: Seq<nix::NewJob>,
    jobs: Seq<models::Job>,
    time_created: i64,
)
    ensures
        new_job_rows(evaluation_id, found).len() == found.len(),
        first_runs(jobs, time_created).len() == jobs.len(),
        forall|i: int| 0 <= i < jobs.len() ==> (#[trigger] first_runs(jobs, time_created)[i]).num == 1,
{
}

} // verus!
