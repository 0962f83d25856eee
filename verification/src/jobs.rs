//! Jobs: a target of an evaluation and its runs.

use crate::evaluations::{job_handle, NewRun};
use crate::handles;
use crate::models;
use crate::nums::{max_num, next_num};
use crate::tasks::{Tasks, TasksView};
use vstd::prelude::*;

verus! {

/// A job with its evaluation and its project.
#[derive(Debug, PartialEq, Eq)]
pub struct Job {
    pub project: models::Project,
    pub evaluation: models::Evaluation,
    pub job: models::Job,
}

/// The registry after each of the runs was asked to be canceled, in
/// order, and the cancelers to fire.
pub open spec fn canceled_all<C, H, W>(tasks: TasksView<C, H, W>, ids: Seq<i32>) -> (
    TasksView<C, H, W>,
    Seq<C>,
)
    decreases ids.len(),
{
    if ids.len() == 0 {
        (tasks, Seq::empty())
    } else {
        let (before, cancelers) = canceled_all(tasks, ids.drop_last());
        let (now, canceler) = before.cancel(ids.last());
        (
            now,
            match canceler {
                Some(c) => cancelers.push(c),
                None => cancelers,
            },
        )
    }
}

impl Job {
    /// The handle of the job.
    pub fn handle(&self) -> (handle: handles::Job)
        ensures
            handle == job_handle(
                handles::Evaluation {
                    project: handles::Project { name: self.project.name },
                    num: self.evaluation.num as u64,
                },
                self.job,
            ),
    {
        handles::job(
            (
                self.project.name.clone(),
                self.evaluation.num as u64,
                self.job.system.clone(),
                self.job.name.clone(),
            ),
        )
    }

    /// The next run of the job, where its runs so far hold the numbers
    /// `nums`: its number is one more than the largest. `None` where
    /// that number cannot be exceeded.
    pub fn new_run(&self, nums: &Vec<i64>, time_created: i64) -> (run: Option<NewRun>)
        ensures
            match run {
                Some(r) => r.job_id == self.job.id && r.num == max_num(nums@) + 1
                    && r.time_created == time_created,
                None => max_num(nums@) == i64::MAX,
            },
    {
        match next_num(nums) {
            Some(num) => Some(NewRun { job_id: self.job.id, num, time_created }),
            None => None,
        }
    }

    /// Cancels the runs of the job that are live: takes the canceler of
    /// each of `run_ids` that is registered and still holds one, for it
    /// to be fired. Runs that have ended are not registered and are left
    /// alone.
    pub fn cancel<C, H, W>(run_ids: &Vec<i32>, runs: &mut Tasks<C, H, W>) -> (cancelers: Vec<C>)
        ensures
            final(runs)@ == canceled_all(old(runs)@, run_ids@).0,
            cancelers@ == canceled_all(old(runs)@, run_ids@).1,
            old(runs)@.wf() ==> final(runs)@.wf(),
    {
        let mut cancelers: Vec<C> = Vec::new();
        let mut i: usize = 0;
        proof {
            assert(run_ids@.take(0) =~= Seq::<i32>::empty());
        }
        while i < run_ids.len()
            invariant
                i <= run_ids.len(),
                runs@ == canceled_all(old(runs)@, run_ids@.take(i as int)).0,
                cancelers@ == canceled_all(old(runs)@, run_ids@.take(i as int)).1,
                old(runs)@.wf() ==> runs@.wf(),
            decreases run_ids.len() - i,
        {
            proof {
                assert(run_ids@.take(i as int + 1).drop_last() =~= run_ids@.take(i as int));
            }
            match runs.cancel(run_ids[i]) {
                Some(c) => {
                    cancelers.push(c);
                },
                None => {},
            }
            i = i + 1;
        }
        proof {
            assert(run_ids@.take(run_ids@.len() as int) =~= run_ids@);
        }
        cancelers
    }
}

} // verus!
