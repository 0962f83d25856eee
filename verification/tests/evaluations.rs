use std::collections::HashMap;
use typhon::data::TaskStatusKind;
use typhon::error::Error;
use typhon::evaluations::{have_outputs, Evaluation, Finish, JobRow, NewRun};
use typhon::handles;
use typhon::models;
use typhon::nix;
use typhon::responses::{
    ActionInfo, BuildInfo, EvaluationInfo, JobInfo, JobSystemName, RunInfo, TaskStatus,
};
use typhon::tasks::{Task, Tasks};

fn status(kind: TaskStatusKind) -> TaskStatus {
    TaskStatus { kind, time_started: Some(1), time_finished: None }
}

fn task(id: i32, kind: TaskStatusKind) -> models::Task {
    models::Task { id, status: kind, time_started: Some(1), time_finished: None, log: String::new() }
}

fn eval_handle() -> handles::Evaluation {
    handles::evaluation(("p".to_string(), 4))
}

fn job(id: i32, evaluation_id: i32, system: &str, name: &str) -> models::Job {
    models::Job {
        id,
        evaluation_id,
        system: system.to_string(),
        name: name.to_string(),
        drv: format!("/nix/store/{}.drv", name),
        out: format!("/nix/store/{}", name),
        dist: true,
    }
}

fn run(id: i32, job_id: i32, num: i64) -> models::Run {
    models::Run {
        id,
        job_id,
        num,
        time_created: 1000,
        begin_id: None,
        build_id: None,
        end_id: None,
    }
}

fn action(id: i32, num: i64) -> (models::Action, models::Task) {
    (
        models::Action {
            id,
            project_id: 1,
            num,
            name: "begin".to_string(),
            input: "{}".to_string(),
            path: "/actions".to_string(),
            task_id: id,
        },
        task(id, TaskStatusKind::Success),
    )
}

fn build(id: i32, num: i64) -> (models::Build, models::Task) {
    (
        models::Build { id, drv: "/nix/store/hello.drv".to_string(), num, task_id: id },
        task(id, TaskStatusKind::Running),
    )
}

fn plain_row(job: models::Job, run: models::Run) -> JobRow {
    JobRow { job, run, begin: None, build: None, end: None }
}

fn plain_info(system: &str, name: &str, run_num: u64, run_count: u32) -> JobInfo {
    let handle =
        handles::job(("p".to_string(), 4, system.to_string(), name.to_string()));
    JobInfo {
        handle: handle.clone(),
        dist: true,
        drv: format!("/nix/store/{}.drv", name),
        out: format!("/nix/store/{}", name),
        system: system.to_string(),
        last_run: RunInfo {
            handle: handles::Run { job: handle, num: run_num },
            begin: None,
            build: None,
            end: None,
        },
        run_count,
    }
}

fn name(system: &str, name: &str) -> JobSystemName {
    JobSystemName { system: system.to_string(), name: name.to_string() }
}

fn evaluation(kind: TaskStatusKind, actions_path: Option<&str>) -> Evaluation {
    Evaluation {
        task: Task { task: task(100, kind) },
        evaluation: models::Evaluation {
            id: 10,
            project_id: 1,
            num: 4,
            jobset_name: "main".to_string(),
            url: "github:org/repo/abc".to_string(),
            flake: true,
            actions_path: actions_path.map(|p| p.to_string()),
            time_created: 1000,
            task_id: 100,
        },
        project: models::Project {
            id: 1,
            name: "p".to_string(),
            url: String::new(),
            url_locked: String::new(),
            actions_path: None,
            key: String::new(),
            description: String::new(),
            homepage: String::new(),
            title: String::new(),
        },
    }
}

fn found(system: &str, name: &str, outputs: &[(&str, &str)]) -> nix::NewJob {
    nix::NewJob {
        system: system.to_string(),
        name: name.to_string(),
        drv: nix::Derivation {
            path: format!("/nix/store/{}.drv", name),
            outputs: outputs.iter().map(|(n, p)| (n.to_string(), p.to_string())).collect(),
        },
        dist: false,
    }
}

#[test]
fn run_info_is_shaped_from_its_rows() {
    let job_handle =
        handles::job(("p".to_string(), 4, "x86_64-linux".to_string(), "hello".to_string()));
    let info = RunInfo::new(
        &job_handle,
        run(30, 20, 2),
        Some(action(1, 7)),
        Some(build(2, 5)),
        Some(action(3, 8)),
    );
    let action_info = |num: u64| ActionInfo {
        handle: handles::action(("p".to_string(), num)),
        input: "{}".to_string(),
        path: "/actions".to_string(),
        status: status(TaskStatusKind::Success),
    };
    assert_eq!(
        info,
        RunInfo {
            handle: handles::Run { job: job_handle.clone(), num: 2 },
            begin: Some(action_info(7)),
            build: Some(BuildInfo {
                handle: handles::build(("/nix/store/hello.drv".to_string(), 5)),
                drv: "/nix/store/hello.drv".to_string(),
                status: status(TaskStatusKind::Running),
            }),
            end: Some(action_info(8)),
        }
    );
    assert_eq!(info.clone(), info);
    assert_eq!(
        RunInfo::new(&job_handle, run(30, 20, 1), None, None, None),
        RunInfo {
            handle: handles::Run { job: job_handle, num: 1 },
            begin: None,
            build: None,
            end: None
        }
    );
}

#[test]
fn job_info_is_shaped_from_its_rows() {
    let info = JobInfo::new(
        &eval_handle(),
        job(20, 10, "x86_64-linux", "hello"),
        run(30, 20, 2),
        3,
        None,
        None,
        None,
    );
    assert_eq!(info, plain_info("x86_64-linux", "hello", 2, 3));
    assert_eq!(info.clone(), info);
}

#[test]
fn the_jobs_of_an_evaluation_are_listed_once_each() {
    let rows = vec![
        plain_row(job(20, 10, "x86_64-linux", "hello"), run(30, 20, 1)),
        plain_row(job(21, 10, "x86_64-linux", "world"), run(31, 21, 1)),
        plain_row(job(20, 10, "x86_64-linux", "hello"), run(32, 20, 2)),
    ];
    let jobs = Evaluation::jobs(&eval_handle(), 10, None, &rows, &HashMap::new());
    assert_eq!(
        jobs,
        vec![
            (name("x86_64-linux", "hello"), plain_info("x86_64-linux", "hello", 2, 1)),
            (name("x86_64-linux", "world"), plain_info("x86_64-linux", "world", 1, 1)),
        ]
    );
}

#[test]
fn jobs_of_other_evaluations_are_left_out() {
    let rows = vec![
        plain_row(job(20, 10, "x86_64-linux", "hello"), run(30, 20, 1)),
        plain_row(job(22, 11, "x86_64-linux", "other"), run(33, 22, 1)),
    ];
    let jobs = Evaluation::jobs(&eval_handle(), 10, None, &rows, &HashMap::new());
    assert_eq!(jobs, vec![(name("x86_64-linux", "hello"), plain_info("x86_64-linux", "hello", 1, 1))]);
    assert_eq!(Evaluation::jobs(&eval_handle(), 12, None, &rows, &HashMap::new()), vec![]);
    assert_eq!(Evaluation::jobs(&eval_handle(), 10, None, &vec![], &HashMap::new()), vec![]);
}

#[test]
fn a_filter_keeps_the_job_of_that_name() {
    let rows = vec![
        plain_row(job(20, 10, "x86_64-linux", "hello"), run(30, 20, 1)),
        plain_row(job(21, 10, "aarch64-linux", "hello"), run(31, 21, 1)),
        plain_row(job(22, 10, "x86_64-linux", "world"), run(32, 22, 1)),
    ];
    let jobs = Evaluation::jobs(
        &eval_handle(),
        10,
        Some(name("aarch64-linux", "hello")),
        &rows,
        &HashMap::new(),
    );
    assert_eq!(
        jobs,
        vec![(name("aarch64-linux", "hello"), plain_info("aarch64-linux", "hello", 1, 1))]
    );
    let none = Evaluation::jobs(
        &eval_handle(),
        10,
        Some(name("aarch64-linux", "world")),
        &rows,
        &HashMap::new(),
    );
    assert_eq!(none, vec![]);
}

#[test]
fn run_counts_are_looked_up_by_the_id_of_the_run() {
    let rows = vec![
        plain_row(job(20, 10, "x86_64-linux", "hello"), run(30, 20, 1)),
        plain_row(job(21, 10, "x86_64-linux", "world"), run(31, 21, 1)),
    ];
    let mut counts = HashMap::new();
    counts.insert(30, 5i64);
    counts.insert(21, 9i64);
    let jobs = Evaluation::jobs(&eval_handle(), 10, None, &rows, &counts);
    assert_eq!(jobs[0].1.run_count, 5);
    assert_eq!(jobs[1].1.run_count, 1);
}

#[test]
fn the_phases_of_the_last_run_are_described() {
    let rows = vec![JobRow {
        job: job(20, 10, "x86_64-linux", "hello"),
        run: run(30, 20, 1),
        begin: Some(action(1, 7)),
        build: Some(build(2, 5)),
        end: None,
    }];
    let jobs = Evaluation::jobs(&eval_handle(), 10, None, &rows, &HashMap::new());
    assert_eq!(jobs.len(), 1);
    let last_run = &jobs[0].1.last_run;
    assert_eq!(last_run.begin.as_ref().unwrap().handle, handles::action(("p".to_string(), 7)));
    assert_eq!(
        last_run.build.as_ref().unwrap().handle,
        handles::build(("/nix/store/hello.drv".to_string(), 5))
    );
    assert_eq!(last_run.end, None);
}

#[test]
fn an_evaluation_that_is_not_there_is_not_found() {
    assert_eq!(
        Evaluation::get(&eval_handle(), None),
        Err(Error::EvaluationNotFound(eval_handle()))
    );
}

#[test]
fn an_evaluation_is_assembled_from_its_rows() {
    let expected = evaluation(TaskStatusKind::Running, Some("/actions"));
    let got = Evaluation::get(
        &eval_handle(),
        Some((
            expected.evaluation.clone(),
            expected.project.clone(),
            expected.task.task.clone(),
        )),
    );
    assert_eq!(got, Ok(expected.clone()));
    assert_eq!(expected.handle(), eval_handle());
    assert_eq!(expected.clone(), expected);
}

#[test]
fn the_jobs_of_an_evaluation_are_shown_once_it_has_succeeded() {
    let rows = vec![plain_row(job(20, 10, "x86_64-linux", "hello"), run(30, 20, 1))];
    let info = evaluation(TaskStatusKind::Success, Some("/actions")).info(&rows, &HashMap::new());
    assert_eq!(
        info,
        EvaluationInfo {
            handle: eval_handle(),
            actions_path: Some("/actions".to_string()),
            flake: true,
            jobs: vec![(name("x86_64-linux", "hello"), plain_info("x86_64-linux", "hello", 1, 1))],
            jobset_name: "main".to_string(),
            status: status(TaskStatusKind::Success),
            time_created: 1000,
            url: "github:org/repo/abc".to_string(),
        }
    );
    for kind in [
        TaskStatusKind::Pending,
        TaskStatusKind::Running,
        TaskStatusKind::Error,
        TaskStatusKind::Canceled,
    ] {
        let info = evaluation(kind, None).info(&rows, &HashMap::new());
        assert_eq!(info.jobs, vec![]);
        assert_eq!(info.status.kind, kind);
        assert_eq!(info.actions_path, None);
    }
}

#[test]
fn the_log_of_an_evaluation_is_the_log_of_its_task() {
    let mut e = evaluation(TaskStatusKind::Running, None);
    e.task.task.append_log("evaluating");
    assert_eq!(e.log(), "evaluating\n");
}

#[test]
fn each_job_found_becomes_a_row_with_its_last_output() {
    let e = evaluation(TaskStatusKind::Running, None);
    let found = vec![
        found("x86_64-linux", "hello", &[("out", "/nix/store/hello")]),
        found("x86_64-linux", "world", &[("dev", "/nix/store/world-dev"), ("out", "/nix/store/world")]),
    ];
    assert!(have_outputs(&found));
    assert_eq!(
        e.create_new_jobs(&found),
        vec![
            models::NewJob {
                dist: false,
                drv: "/nix/store/hello.drv".to_string(),
                evaluation_id: 10,
                name: "hello".to_string(),
                out: "/nix/store/hello".to_string(),
                system: "x86_64-linux".to_string(),
            },
            models::NewJob {
                dist: false,
                drv: "/nix/store/world.drv".to_string(),
                evaluation_id: 10,
                name: "world".to_string(),
                out: "/nix/store/world".to_string(),
                system: "x86_64-linux".to_string(),
            },
        ]
    );
}

#[test]
fn each_new_job_gets_its_first_run() {
    let jobs = vec![job(20, 10, "x86_64-linux", "hello"), job(21, 10, "x86_64-linux", "world")];
    assert_eq!(
        Evaluation::new_runs(&jobs, 77),
        vec![
            NewRun { job_id: 20, num: 1, time_created: 77 },
            NewRun { job_id: 21, num: 1, time_created: 77 }
        ]
    );
}

#[test]
fn an_evaluation_without_jobs_succeeds_and_creates_no_run() {
    let e = evaluation(TaskStatusKind::Running, None);
    assert_eq!(e.finish(Some(Ok(vec![]))), Finish::Create(vec![]));
    assert_eq!(e.finish_checked(Some(Ok(vec![]))), Finish::Create(vec![]));
    assert_eq!(Evaluation::new_runs(&vec![], 77), vec![]);
    assert_eq!(Evaluation::finish_created(&Ok(())), TaskStatusKind::Success);
}

#[test]
fn a_failed_evaluation_creates_nothing() {
    let e = evaluation(TaskStatusKind::Running, None);
    let failure = nix::Error { message: "error: attribute missing".to_string() };
    assert_eq!(e.finish(Some(Err(failure))), Finish::Done(TaskStatusKind::Error));
    assert_eq!(e.finish(None), Finish::Done(TaskStatusKind::Canceled));
    assert_eq!(e.finish_checked(None), Finish::Done(TaskStatusKind::Canceled));
    assert_eq!(
        Evaluation::finish_created(&Err(Error::UnexpectedDatabaseError("locked".to_string()))),
        TaskStatusKind::Error
    );
}

#[test]
fn jobs_found_are_persisted() {
    let e = evaluation(TaskStatusKind::Running, None);
    let jobs = vec![found("x86_64-linux", "hello", &[("out", "/nix/store/hello")])];
    match e.finish(Some(Ok(jobs))) {
        Finish::Create(rows) => {
            assert_eq!(rows.len(), 1);
            assert_eq!(rows[0].name, "hello");
            assert_eq!(rows[0].out, "/nix/store/hello");
        }
        Finish::Done(status) => panic!("nothing persisted: {:?}", status),
    }
}

#[test]
fn a_job_without_output_fails_the_evaluation() {
    let e = evaluation(TaskStatusKind::Running, None);
    let jobs = vec![
        found("x86_64-linux", "hello", &[("out", "/nix/store/hello")]),
        found("x86_64-linux", "broken", &[]),
    ];
    assert!(!have_outputs(&jobs));
    assert_eq!(e.finish_checked(Some(Ok(jobs))), Finish::Done(TaskStatusKind::Error));
}

#[test]
fn the_message_of_a_failure_is_logged_line_by_line() {
    let e = evaluation(TaskStatusKind::Running, None);
    let failure = nix::Error { message: "error: attribute missing\n  at flake.nix:3\n".to_string() };
    assert_eq!(
        e.run(&Err(failure)),
        vec!["error: attribute missing", "  at flake.nix:3", ""]
    );
    assert_eq!(e.run(&Ok(vec![])), Vec::<String>::new());
}

#[test]
fn canceling_an_evaluation_takes_its_canceler_from_the_registry() {
    let e = evaluation(TaskStatusKind::Running, None);
    let mut evaluations: Tasks<&'static str, u8, u8> = Tasks::new();
    evaluations.run(100, "stop", 0).unwrap();
    assert_eq!(e.cancel(&mut evaluations), Some("stop"));
    assert_eq!(e.cancel(&mut evaluations), None);
}
