use typhon::handles;
use typhon::jobsets::{Jobset, NewEvaluation};
use typhon::models;

fn jobset(actions_path: Option<&str>) -> Jobset {
    Jobset {
        jobset: models::Jobset {
            id: 5,
            project_id: 1,
            name: "main".to_string(),
            url: "github:org/repo".to_string(),
            flake: true,
        },
        project: models::Project {
            id: 1,
            name: "p".to_string(),
            url: String::new(),
            url_locked: String::new(),
            actions_path: actions_path.map(|p| p.to_string()),
            key: String::new(),
            description: String::new(),
            homepage: String::new(),
            title: String::new(),
        },
    }
}

#[test]
fn the_handle_of_a_jobset() {
    assert_eq!(
        jobset(None).handle(),
        handles::jobset(("p".to_string(), "main".to_string()))
    );
}

#[test]
fn an_evaluation_gets_the_next_number_of_its_project() {
    assert_eq!(
        jobset(Some("/actions")).evaluate(&vec![1, 2, 3], 1000, 77),
        Some(NewEvaluation {
            project_id: 1,
            num: 4,
            jobset_name: "main".to_string(),
            url: "github:org/repo".to_string(),
            flake: true,
            actions_path: Some("/actions".to_string()),
            time_created: 1000,
            task_id: 77,
        })
    );
    assert_eq!(jobset(None).evaluate(&vec![], 5, 1).unwrap().num, 1);
    assert_eq!(jobset(None).evaluate(&vec![], 5, 1).unwrap().actions_path, None);
    assert_eq!(jobset(None).evaluate(&vec![i64::MAX], 5, 1), None);
}
