//! Projects: the table of projects and what is asked of it.

use crate::error::Error;
use crate::handles;
use crate::models;
use crate::tasks;
use vstd::prelude::*;

verus! {

/// A project with the task that refreshes it, if one runs.
#[derive(Debug, PartialEq, Eq)]
pub struct Project {
    pub refresh_task: Option<tasks::Task>,
    pub project: models::Project,
}

/// Where the project called `name` stands in the table: the place of the
/// first project of that name, or the length of the table.
pub open spec fn name_slot(projects: Seq<models::Project>, name: Seq<char>) -> int
    decreases projects.len(),
{
    if projects.len() == 0 {
        0
    } else if projects[0].name@ == name {
        0
    } else {
        1 + name_slot(projects.drop_first(), name)
    }
}

/// Whether a project is called `name`.
pub open spec fn name_taken(projects: Seq<models::Project>, name: Seq<char>) -> bool {
    exists|i: int| 0 <= i < projects.len() && (#[trigger] projects[i]).name@ == name
}

/// No two projects have the same name.
pub open spec fn unique_names(projects: Seq<models::Project>) -> bool {
    forall|i: int, j: int|
        0 <= i < j < projects.len() ==> (#[trigger] projects[i]).name@ != (
        #[trigger] projects[j]).name@
}

/// Whether `row` is the row of a project that was just created: it has
/// the id, the name and the key it was created with, and nothing else.
pub open spec fn is_new(row: models::Project, id: i32, name: String, key: String) -> bool {
    &&& row.id == id
    &&& row.name == name
    &&& row.key == key
    &&& row.url@.len() == 0
    &&& row.url_locked@.len() == 0
    &&& row.actions_path is None
    &&& row.description@.len() == 0
    &&& row.homepage@.len() == 0
    &&& row.title@.len() == 0
}

/// A scan from the front finds the slot of a name.
pub proof fn lemma_name_slot(projects: Seq<models::Project>, name: Seq<char>, j: int)
    requires
        0 <= j <= projects.len(),
        forall|m: int| 0 <= m < j ==> (#[trigger] projects[m]).name@ != name,
        j < projects.len() ==> projects[j].name@ == name,
    ensures
        name_slot(projects, name) == j,
        name_taken(projects, name) <==> j < projects.len(),
    decreases j,
{
    if j > 0 {
        let rest = projects.drop_first();
        assert(projects[0].name@ != name);
        assert forall|m: int| 0 <= m < j - 1 implies (#[trigger] rest[m]).name@ != name by {
            assert(rest[m] == projects[m + 1]);
        }
        if j < projects.len() {
            assert(rest[j - 1] == projects[j]);
        }
        lemma_name_slot(rest, name, j - 1);
    }
    if j < projects.len() {
        assert(projects[j].name@ == name);
    }
}

fn find(projects: &Vec<models::Project>, name: &String) -> (slot: usize)
    ensures
        slot == name_slot(projects@, name@),
        slot <= projects@.len(),
        name_taken(projects@, name@) <==> slot < projects@.len(),
        slot < projects@.len() ==> projects@[slot as int].name@ == name@,
{
    let mut j: usize = 0;
    while j < projects.len() && !(projects[j].name == *name)
        invariant
            j <= projects@.len(),
            forall|m: int| 0 <= m < j ==> (#[trigger] projects@[m]).name@ != name@,
        decreases projects@.len() - j,
    {
        j = j + 1;
    }
    proof {
        lemma_name_slot(projects@, name@, j as int);
    }
    j
}

impl Project {
    /// Creates the project that `handle` names, with the id and the key
    /// given. Where a project of that name exists, nothing is created and
    /// the table stays as it is.
    pub fn create(
        projects: &mut Vec<models::Project>,
        handle: &handles::Project,
        id: i32,
        key: String,
    ) -> (res: Result<(), Error>)
        ensures
            name_taken(old(projects)@, handle.name@) ==> res == Err::<(), Error>(
                Error::ProjectAlreadyExists(*handle),
            ) && final(projects)@ == old(projects)@,
            !name_taken(old(projects)@, handle.name@) ==> res is Ok && final(projects)@.len()
                == old(projects)@.len() + 1 && final(projects)@.drop_last() == old(projects)@
                && is_new(final(projects)@.last(), id, handle.name, key),
            unique_names(old(projects)@) ==> unique_names(final(projects)@),
    {
        let slot = find(projects, &handle.name);
        if slot < projects.len() {
            return Err(Error::ProjectAlreadyExists(handle.clone()));
        }
        projects.push(
            models::Project {
                id,
                name: handle.name.clone(),
                url: String::new(),
                url_locked: String::new(),
                actions_path: None,
                key,
                description: String::new(),
                homepage: String::new(),
                title: String::new(),
            },
        );
        proof {
            assert(projects@.drop_last() =~= old(projects)@);
            if unique_names(old(projects)@) {
                assert forall|a: int, b: int| 0 <= a < b < projects@.len() implies (
                #[trigger] projects@[a]).name@ != (#[trigger] projects@[b]).name@ by {
                    if b < old(projects)@.len() {
                        assert(old(projects)@[a].name@ != old(projects)@[b].name@);
                    } else {
                        assert(old(projects)@[a].name@ != handle.name@);
                    }
                }
            }
        }
        Ok(())
    }

    /// The project that `handle` names, or the error that there is none.
    pub fn get(projects: &Vec<models::Project>, handle: &handles::Project) -> (res: Result<
        Self,
        Error,
    >)
        ensures
            name_taken(projects@, handle.name@) ==> res == Ok::<Self, Error>(
                Project {
                    refresh_task: None,
                    project: projects@[name_slot(projects@, handle.name@)],
                },
            ),
            !name_taken(projects@, handle.name@) ==> res == Err::<Self, Error>(
                Error::ProjectNotFound(*handle),
            ),
    {
        let slot = find(projects, &handle.name);
        if slot < projects.len() {
            Ok(Project { refresh_task: None, project: projects[slot].clone() })
        } else {
            Err(Error::ProjectNotFound(handle.clone()))
        }
    }

    /// Deletes the project that `handle` names, or says that there is
    /// none and leaves the table as it is.
    pub fn delete(projects: &mut Vec<models::Project>, handle: &handles::Project) -> (res: Result<
        (),
        Error,
    >)
        ensures
            name_taken(old(projects)@, handle.name@) ==> res is Ok && final(projects)@ == old(
                projects,
            )@.remove(name_slot(old(projects)@, handle.name@)),
            !name_taken(old(projects)@, handle.name@) ==> res == Err::<(), Error>(
                Error::ProjectNotFound(*handle),
            ) && final(projects)@ == old(projects)@,
    {
        let slot = find(projects, &handle.name);
        if slot < projects.len() {
            let _ = projects.remove(slot);
            Ok(())
        } else {
            Err(Error::ProjectNotFound(handle.clone()))
        }
    }

    /// The names of the projects, in the order of the table.
    pub fn list(projects: &Vec<models::Project>) -> (names: Vec<String>)
        ensures
            names@.len() == projects@.len(),
            forall|i: int| 0 <= i < names@.len() ==> #[trigger] names@[i] == projects@[i].name,
    {
        let mut names: Vec<String> = Vec::new();
        let mut i: usize = 0;
        while i < projects.len()
            invariant
                i <= projects.len(),
                names@.len() == i,
                forall|k: int| 0 <= k < i ==> #[trigger] names@[k] == projects@[k].name,
            decreases projects.len() - i,
        {
            names.push(projects[i].name.clone());
            i = i + 1;
        }
        names
    }

    /// The handle of the project.
    pub fn handle(&self) -> (handle: handles::Project)
        ensures
            handle == (handles::Project { name: self.project.name }),
    {
        handles::project(self.project.name.clone())
    }
}

/// Creating a project under a name that is taken fails and changes
/// nothing; under a free name it adds the project and keeps the names
/// unique.
pub proof fn lemma_create_keeps_names_unique(
    projects: Seq<models::Project>,
    row: models::Project,
)
    requires
        unique_names(projects),
        !name_taken(projects, row.name@),
    ensures
        unique_names(projects.push(row)),
        name_taken(projects.push(row), row.name@),
{
    let after = projects.push(row);
    assert forall|a: int, b: int| 0 <= a < b < after.len() implies (#[trigger] after[a]).name@ != (
    #[trigger] after[b]).name@ by {
        if b < projects.len() {
            assert(projects[a].name@ != projects[b].name@);
        } else {
            assert(projects[a].name@ != row.name@);
        }
    }
    assert(after[projects.len() as int].name@ == row.name@);
}

} // verus!
