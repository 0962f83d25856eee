use typhon::error::Error;
use typhon::handles;
use typhon::models;
use typhon::projects::Project;

fn handle(name: &str) -> handles::Project {
    handles::project(name.to_string())
}

fn row(id: i32, name: &str, key: &str) -> models::Project {
    models::Project {
        id,
        name: name.to_string(),
        url: String::new(),
        url_locked: String::new(),
        actions_path: None,
        key: key.to_string(),
        description: String::new(),
        homepage: String::new(),
        title: String::new(),
    }
}

#[test]
fn a_project_is_created_under_a_free_name() {
    let mut projects = vec![];
    assert_eq!(Project::create(&mut projects, &handle("p"), 1, "key-p".to_string()), Ok(()));
    assert_eq!(projects, vec![row(1, "p", "key-p")]);
    assert_eq!(Project::create(&mut projects, &handle("q"), 2, "key-q".to_string()), Ok(()));
    assert_eq!(projects, vec![row(1, "p", "key-p"), row(2, "q", "key-q")]);
}

#[test]
fn creating_a_project_twice_fails_and_changes_nothing() {
    let mut projects = vec![];
    Project::create(&mut projects, &handle("p"), 1, "key-p".to_string()).unwrap();
    Project::create(&mut projects, &handle("q"), 2, "key-q".to_string()).unwrap();
    let before = projects.clone();
    assert_eq!(
        Project::create(&mut projects, &handle("p"), 3, "other".to_string()),
        Err(Error::ProjectAlreadyExists(handle("p")))
    );
    assert_eq!(projects, before);
    assert_eq!(
        Project::create(&mut projects, &handle("q"), 4, "other".to_string()),
        Err(Error::ProjectAlreadyExists(handle("q")))
    );
    assert_eq!(projects, before);
}

#[test]
fn a_project_is_found_by_its_name() {
    let projects = vec![row(1, "p", "k1"), row(2, "q", "k2")];
    assert_eq!(
        Project::get(&projects, &handle("q")),
        Ok(Project { refresh_task: None, project: row(2, "q", "k2") })
    );
    assert_eq!(
        Project::get(&projects, &handle("r")),
        Err(Error::ProjectNotFound(handle("r")))
    );
    assert_eq!(Project::get(&projects, &handle("q")).unwrap().handle(), handle("q"));
}

#[test]
fn a_project_is_deleted_by_its_name() {
    let mut projects = vec![row(1, "p", "k1"), row(2, "q", "k2"), row(3, "r", "k3")];
    assert_eq!(Project::delete(&mut projects, &handle("q")), Ok(()));
    assert_eq!(projects, vec![row(1, "p", "k1"), row(3, "r", "k3")]);
    assert_eq!(
        Project::delete(&mut projects, &handle("q")),
        Err(Error::ProjectNotFound(handle("q")))
    );
    assert_eq!(projects, vec![row(1, "p", "k1"), row(3, "r", "k3")]);
}

#[test]
fn projects_are_listed_by_name() {
    let projects = vec![row(1, "p", "k1"), row(2, "q", "k2")];
    assert_eq!(Project::list(&projects), vec!["p", "q"]);
    assert_eq!(Project::list(&vec![]), Vec::<String>::new());
}
