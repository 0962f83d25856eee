use typhon::builds::{Build, Builds};
use typhon::data::TaskStatusKind;
use typhon::handles;
use typhon::models;
use typhon::responses::{BuildInfo, TaskStatus};
use typhon::tasks::Task;

fn build() -> Build {
    Build {
        task: Task {
            task: models::Task {
                id: 9,
                status: TaskStatusKind::Running,
                time_started: Some(5),
                time_finished: None,
                log: String::new(),
            },
        },
        build: models::Build { id: 3, drv: "/nix/store/a.drv".to_string(), num: 2, task_id: 9 },
    }
}

#[test]
fn the_first_request_starts_a_build() {
    let mut builds = Builds::new();
    assert_eq!(builds.len(), 0);
    assert_eq!(builds.live_build("drv42"), None);
    assert_eq!(builds.run("drv42", 1), (1, true));
    assert_eq!(builds.len(), 1);
    assert_eq!(builds.live_build("drv42"), Some(1));
}

#[test]
fn two_runs_of_the_same_derivation_share_one_build() {
    let mut builds = Builds::new();
    assert_eq!(builds.run("drv42", 1), (1, true));
    assert_eq!(builds.run("drv42", 2), (1, false));
    assert_eq!(builds.len(), 1);
    assert_eq!(builds.live_build("drv42"), Some(1));
}

#[test]
fn different_derivations_get_different_builds() {
    let mut builds = Builds::new();
    assert_eq!(builds.run("drv42", 1), (1, true));
    assert_eq!(builds.run("drv43", 2), (2, true));
    assert_eq!(builds.len(), 2);
    assert_eq!(builds.live_build("drv43"), Some(2));
}

#[test]
fn a_shared_build_is_canceled_by_its_last_run_only() {
    let mut builds = Builds::new();
    builds.run("drv42", 1);
    builds.run("drv42", 2);
    assert!(!builds.cancel(1));
    assert_eq!(builds.live_build("drv42"), Some(1));
    assert!(builds.cancel(1));
    assert!(!builds.cancel(1));
    assert_eq!(builds.len(), 1);
}

#[test]
fn cancel_of_an_unknown_build_does_nothing() {
    let mut builds = Builds::new();
    builds.run("drv42", 1);
    assert!(!builds.cancel(5));
    assert!(builds.cancel(1));
}

#[test]
fn a_build_that_has_ended_is_no_longer_live() {
    let mut builds = Builds::new();
    builds.run("drv42", 1);
    builds.run("drv43", 2);
    builds.finish(1);
    assert_eq!(builds.live_build("drv42"), None);
    assert_eq!(builds.live_build("drv43"), Some(2));
    assert_eq!(builds.len(), 1);
    assert_eq!(builds.run("drv42", 3), (3, true));
    builds.finish(7);
    assert_eq!(builds.len(), 2);
}

#[test]
fn a_build_succeeds_with_exit_zero_and_its_outputs() {
    assert_eq!(Build::result(0, true), Some(()));
    assert_eq!(Build::result(0, false), None);
    assert_eq!(Build::result(1, true), None);
    assert_eq!(Build::result(-1, false), None);
}

#[test]
fn the_status_of_a_build_follows_its_result() {
    assert_eq!(Build::finish(Some(Some(()))), TaskStatusKind::Success);
    assert_eq!(Build::finish(Some(None)), TaskStatusKind::Error);
    assert_eq!(Build::finish(None), TaskStatusKind::Canceled);
}

#[test]
fn build_handle_and_info() {
    let b = build();
    assert_eq!(b.handle(), handles::Build { drv: "/nix/store/a.drv".to_string(), num: 2 });
    assert_eq!(
        b.info(),
        BuildInfo {
            handle: handles::Build { drv: "/nix/store/a.drv".to_string(), num: 2 },
            drv: "/nix/store/a.drv".to_string(),
            status: TaskStatus {
                kind: TaskStatusKind::Running,
                time_started: Some(5),
                time_finished: None
            }
        }
    );
    assert_eq!(b.row(), (b.build.clone(), b.task.task.clone()));
    assert_eq!(b.clone(), b);
}

#[test]
fn the_result_of_a_build_is_read_from_its_status() {
    for (status, result) in [
        (TaskStatusKind::Success, Some(Some(()))),
        (TaskStatusKind::Error, Some(None)),
        (TaskStatusKind::Canceled, None),
        (TaskStatusKind::Running, None),
        (TaskStatusKind::Pending, None),
    ] {
        let mut b = build();
        b.task.task.status = status;
        assert_eq!(b.outcome(), result);
    }
    for result in [Some(Some(())), Some(None), None] {
        let mut b = build();
        b.task.task.status = Build::finish(result);
        assert_eq!(b.outcome(), result);
    }
}
