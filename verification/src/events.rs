//! The events that the service announces to its subscribers.

use crate::handles;
use vstd::prelude::*;

verus! {

/// A change of the persisted state, named by the entity that changed.
/// Events only notify: the state itself is read from the database.
#[derive(Debug, PartialEq, Eq)]
pub enum Event {
    ProjectUpdated(handles::Project),
    JobsetUpdated(handles::Jobset),
    EvaluationNew(handles::Evaluation),
    EvaluationUpdated(handles::Evaluation),
    RunNew(handles::Run),
    RunUpdated(handles::Run),
    BuildNew(handles::Build),
    BuildUpdated(handles::Build),
    ActionNew(handles::Action),
}

} // verus!
