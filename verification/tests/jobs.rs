use typhon::evaluations::NewRun;
use typhon::handles;
use typhon::jobs::Job;
use typhon::models;
use typhon::tasks::Tasks;

fn job() -> Job {
    Job {
        project: models::Project {
            id: 1,
            name: "p".to_string(),
            url: String::new(),
            url_locked: String::new(),
            actions_path: None,
            key: String::new(),
            description: String::new(),
            homepage: String::new(),
            title: String::new(),
        },
        evaluation: models::Evaluation {
            id: 10,
            project_id: 1,
            num: 4,
            jobset_name: "main".to_string(),
            url: "u".to_string(),
            flake: true,
            actions_path: None,
            time_created: 0,
            task_id: 100,
        },
        job: models::Job {
            id: 20,
            evaluation_id: 10,
            system: "x86_64-linux".to_string(),
            name: "hello".to_string(),
            drv: "d".to_string(),
            out: "o".to_string(),
            dist: true,
        },
    }
}

#[test]
fn the_handle_of_a_job() {
    assert_eq!(
        job().handle(),
        handles::job(("p".to_string(), 4, "x86_64-linux".to_string(), "hello".to_string()))
    );
}

#[test]
fn the_runs_of_a_job_are_numbered_in_order() {
    assert_eq!(job().new_run(&vec![], 50), Some(NewRun { job_id: 20, num: 1, time_created: 50 }));
    assert_eq!(
        job().new_run(&vec![1, 2], 60),
        Some(NewRun { job_id: 20, num: 3, time_created: 60 })
    );
    assert_eq!(job().new_run(&vec![i64::MAX], 60), None);
}

#[test]
fn canceling_a_job_cancels_its_live_runs() {
    let mut runs: Tasks<&'static str, u8, u8> = Tasks::new();
    runs.run(1, "stop-1", 0).unwrap();
    runs.run(2, "stop-2", 0).unwrap();
    runs.run(3, "stop-3", 0).unwrap();
    runs.cancel(2);
    let cancelers = Job::cancel(&vec![1, 2, 5, 3, 1], &mut runs);
    assert_eq!(cancelers, vec!["stop-1", "stop-3"]);
    assert_eq!(runs.len(), 3);
    assert_eq!(Job::cancel(&vec![1, 2, 3], &mut runs), Vec::<&str>::new());
    assert_eq!(Job::cancel(&vec![], &mut runs), Vec::<&str>::new());
}
