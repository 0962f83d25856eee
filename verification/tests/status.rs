use typhon::data::TaskStatusKind;
use typhon::error::Error;
use typhon::models::Task;
use typhon::responses::TaskStatus;
use typhon::status::reconcile_all;

const KINDS: [TaskStatusKind; 5] = [
    TaskStatusKind::Pending,
    TaskStatusKind::Running,
    TaskStatusKind::Success,
    TaskStatusKind::Error,
    TaskStatusKind::Canceled,
];

#[test]
fn status_kinds_are_short_strings() {
    assert_eq!(TaskStatusKind::Pending.to_string(), "pending");
    assert_eq!(TaskStatusKind::Running.to_string(), "running");
    assert_eq!(TaskStatusKind::Success.to_string(), "success");
    assert_eq!(TaskStatusKind::Error.to_string(), "error");
    assert_eq!(TaskStatusKind::Canceled.to_string(), "canceled");
}

#[test]
fn status_kinds_round_trip() {
    for kind in KINDS {
        assert_eq!(TaskStatusKind::from_string(&kind.to_string()), Some(kind));
    }
}

#[test]
fn unknown_status_strings_are_rejected() {
    assert_eq!(TaskStatusKind::from_string(""), None);
    assert_eq!(TaskStatusKind::from_string("Pending"), None);
    assert_eq!(TaskStatusKind::from_string("cancelled"), None);
    assert_eq!(TaskStatusKind::from_string("success "), None);
}

#[test]
fn only_forward_transitions_are_legal() {
    let legal = [
        (TaskStatusKind::Pending, TaskStatusKind::Running),
        (TaskStatusKind::Pending, TaskStatusKind::Canceled),
        (TaskStatusKind::Running, TaskStatusKind::Success),
        (TaskStatusKind::Running, TaskStatusKind::Error),
        (TaskStatusKind::Running, TaskStatusKind::Canceled),
    ];
    for from in KINDS {
        for to in KINDS {
            assert_eq!(from.can_become(to), legal.contains(&(from, to)), "{:?} -> {:?}", from, to);
        }
    }
}

#[test]
fn terminal_kinds() {
    assert!(!TaskStatusKind::Pending.is_terminal());
    assert!(!TaskStatusKind::Running.is_terminal());
    assert!(TaskStatusKind::Success.is_terminal());
    assert!(TaskStatusKind::Error.is_terminal());
    assert!(TaskStatusKind::Canceled.is_terminal());
}

#[test]
fn a_new_task_is_pending() {
    let task = Task::new(4);
    assert_eq!(
        task,
        Task {
            id: 4,
            status: TaskStatusKind::Pending,
            time_started: None,
            time_finished: None,
            log: String::new()
        }
    );
    assert_eq!(task.status_kind(), TaskStatusKind::Pending);
}

#[test]
fn a_task_runs_and_succeeds() {
    let mut task = Task::new(4);
    assert_eq!(task.set_status(TaskStatusKind::Running, 100), Ok(()));
    assert_eq!(
        task.status(),
        TaskStatus { kind: TaskStatusKind::Running, time_started: Some(100), time_finished: None }
    );
    assert_eq!(task.set_status(TaskStatusKind::Success, 130), Ok(()));
    assert_eq!(
        task.status(),
        TaskStatus {
            kind: TaskStatusKind::Success,
            time_started: Some(100),
            time_finished: Some(130)
        }
    );
}

#[test]
fn a_pending_task_can_be_canceled() {
    let mut task = Task::new(4);
    assert_eq!(task.set_status(TaskStatusKind::Canceled, 50), Ok(()));
    assert_eq!(
        task.status(),
        TaskStatus { kind: TaskStatusKind::Canceled, time_started: None, time_finished: Some(50) }
    );
}

#[test]
fn illegal_transitions_are_rejected_and_change_nothing() {
    let mut task = Task::new(4);
    task.set_status(TaskStatusKind::Running, 1).unwrap();
    task.set_status(TaskStatusKind::Success, 2).unwrap();
    let before = task.clone();
    assert_eq!(
        task.set_status(TaskStatusKind::Running, 3),
        Err(Error::IllegalTransition(TaskStatusKind::Success, TaskStatusKind::Running))
    );
    assert_eq!(task, before);
    assert_eq!(
        task.set_status(TaskStatusKind::Success, 3),
        Err(Error::IllegalTransition(TaskStatusKind::Success, TaskStatusKind::Success))
    );
    assert_eq!(task, before);
}

#[test]
fn pending_cannot_jump_to_success() {
    let mut task = Task::new(4);
    assert_eq!(
        task.set_status(TaskStatusKind::Success, 3),
        Err(Error::IllegalTransition(TaskStatusKind::Pending, TaskStatusKind::Success))
    );
    assert_eq!(task, Task::new(4));
}

#[test]
fn log_chunks_are_appended_with_line_breaks() {
    let mut task = Task::new(4);
    assert_eq!(task.read_log(), "");
    task.append_log("first");
    task.append_log("second");
    task.append_log("");
    assert_eq!(task.read_log(), "first\nsecond\n\n");
    assert_eq!(task.status_kind(), TaskStatusKind::Pending);
}

#[test]
fn reconcile_marks_interrupted_tasks_as_failed() {
    let mut pending = Task::new(1);
    assert!(pending.reconcile(77));
    assert_eq!(
        pending,
        Task {
            id: 1,
            status: TaskStatusKind::Error,
            time_started: None,
            time_finished: Some(77),
            log: "interrupted\n".to_string()
        }
    );
    let mut running = Task::new(2);
    running.set_status(TaskStatusKind::Running, 10).unwrap();
    running.append_log("building");
    assert!(running.reconcile(77));
    assert_eq!(
        running,
        Task {
            id: 2,
            status: TaskStatusKind::Error,
            time_started: Some(10),
            time_finished: Some(77),
            log: "building\ninterrupted\n".to_string()
        }
    );
}

#[test]
fn reconcile_leaves_ended_tasks_alone() {
    for kind in [TaskStatusKind::Success, TaskStatusKind::Error, TaskStatusKind::Canceled] {
        let mut task = Task::new(3);
        task.set_status(TaskStatusKind::Running, 10).unwrap();
        task.set_status(kind, 20).unwrap();
        let before = task.clone();
        assert!(!task.reconcile(77));
        assert_eq!(task, before);
    }
}

#[test]
fn reconcile_all_counts_what_it_rewrites() {
    let mut done = Task::new(2);
    done.set_status(TaskStatusKind::Running, 1).unwrap();
    done.set_status(TaskStatusKind::Success, 2).unwrap();
    let mut running = Task::new(3);
    running.set_status(TaskStatusKind::Running, 1).unwrap();
    let mut tasks = vec![Task::new(1), done.clone(), running];
    assert_eq!(reconcile_all(&mut tasks, 9), 2);
    assert_eq!(tasks[0].status, TaskStatusKind::Error);
    assert_eq!(tasks[0].time_finished, Some(9));
    assert_eq!(tasks[1], done);
    assert_eq!(tasks[2].status, TaskStatusKind::Error);
    assert_eq!(tasks[2].time_started, Some(1));
    assert_eq!(reconcile_all(&mut tasks, 10), 0);
    let mut none: Vec<Task> = vec![];
    assert_eq!(reconcile_all(&mut none, 10), 0);
}
