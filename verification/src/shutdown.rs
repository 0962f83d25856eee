//! The order in which the registries of the service are shut down.

use vstd::prelude::*;

verus! {

/// The four registries of the service.
#[derive(Clone, Copy, Debug, PartialEq, Eq, Structural)]
pub enum Registry {
    Runs,
    Evaluations,
    Actions,
    Builds,
}

/// How far a shutdown has come.
#[derive(Clone, Copy, Debug, PartialEq, Eq, Structural)]
pub struct Shutdown {
    done: u8,
}

/// The registries in the order in which they are shut down: each one
/// before those that it starts tasks in.
pub open spec fn order() -> Seq<Registry> {
    seq![Registry::Runs, Registry::Evaluations, Registry::Actions, Registry::Builds]
}

impl View for Shutdown {
    type V = nat;

    closed spec fn view(&self) -> nat {
        if self.done <= 4 {
            self.done as nat
        } else {
            4
        }
    }
}

impl Shutdown {
    /// A shutdown that has not begun.
    pub fn new() -> (shutdown: Self)
        ensures
            shutdown@ == 0,
    {
        Shutdown { done: 0 }
    }

    /// The registry to shut down next, once the one before it is
    /// quiescent; `None` when all four are.
    pub fn next(&mut self) -> (registry: Option<Registry>)
        ensures
            old(self)@ < 4 ==> registry == Some(order()[old(self)@ as int]) && final(self)@
                == old(self)@ + 1,
            old(self)@ >= 4 ==> registry is None && final(self)@ == old(self)@,
            final(self)@ <= 4,
    {
        let registry = if self.done == 0 {
            Some(Registry::Runs)
        } else if self.done == 1 {
            Some(Registry::Evaluations)
        } else if self.done == 2 {
            Some(Registry::Actions)
        } else if self.done == 3 {
            Some(Registry::Builds)
        } else {
            None
        };
        if self.done < 4 {
            self.done = self.done + 1;
        }
        registry
    }

    /// Whether all four registries were shut down.
    pub fn is_done(&self) -> (done: bool)
        ensures
            done == (self@ >= 4),
    {
        self.done >= 4
    }
}

} // verus!
