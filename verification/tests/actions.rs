use typhon::actions::Action;
use typhon::data::TaskStatusKind;
use typhon::handles;
use typhon::models;
use typhon::responses::{ActionInfo, TaskStatus};
use typhon::tasks::Task;

fn action() -> Action {
    Action {
        task: Task {
            task: models::Task {
                id: 9,
                status: TaskStatusKind::Success,
                time_started: Some(5),
                time_finished: Some(8),
                log: "ok\n".to_string(),
            },
        },
        action: models::Action {
            id: 3,
            project_id: 1,
            num: 6,
            name: "begin".to_string(),
            input: "{\"status\":\"pending\"}".to_string(),
            path: "/nix/store/actions".to_string(),
            task_id: 9,
        },
        project: models::Project {
            id: 1,
            name: "p".to_string(),
            url: String::new(),
            url_locked: String::new(),
            actions_path: None,
            key: String::new(),
            description: String::new(),
            homepage: String::new(),
            title: String::new(),
        },
    }
}

#[test]
fn the_status_of_an_action_follows_its_exit_code() {
    assert_eq!(Action::finish(Some(0)), TaskStatusKind::Success);
    assert_eq!(Action::finish(Some(1)), TaskStatusKind::Error);
    assert_eq!(Action::finish(Some(-1)), TaskStatusKind::Error);
    assert_eq!(Action::finish(Some(127)), TaskStatusKind::Error);
    assert_eq!(Action::finish(None), TaskStatusKind::Canceled);
}

#[test]
fn action_handle_and_info() {
    let a = action();
    assert_eq!(a.handle(), handles::action(("p".to_string(), 6)));
    assert_eq!(
        a.info(),
        ActionInfo {
            handle: handles::action(("p".to_string(), 6)),
            input: "{\"status\":\"pending\"}".to_string(),
            path: "/nix/store/actions".to_string(),
            status: TaskStatus {
                kind: TaskStatusKind::Success,
                time_started: Some(5),
                time_finished: Some(8)
            },
        }
    );
    assert_eq!(a.row(), (a.action.clone(), a.task.task.clone()));
    assert_eq!(a.clone(), a);
    assert_eq!(a.task.log(), "ok\n");
    assert_eq!(a.task.status_kind(), TaskStatusKind::Success);
}
