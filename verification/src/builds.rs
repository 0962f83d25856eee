//! Builds: one invocation of the builder for a derivation, shared by all
//! the runs that ask for that derivation while it is live.

use crate::data::TaskStatusKind;
use crate::evaluations::{build_info, BuildRow};
use crate::handles;
use crate::models;
use crate::responses::BuildInfo;
use crate::tasks;
use vstd::prelude::*;

verus! {

/// A build with its task.
#[derive(Debug, PartialEq, Eq)]
pub struct Build {
    pub task: tasks::Task,
    pub build: models::Build,
}

impl Clone for Build {
    fn clone(&self) -> (copy: Self)
        ensures
            copy == *self,
    {
        Build { task: self.task.clone(), build: self.build.clone() }
    }
}

/// The handle of a build: its derivation and its number.
pub open spec fn build_handle(b: Build) -> handles::Build {
    handles::Build { drv: b.build.drv, num: b.build.num as u64 }
}

/// What a build has produced: something exactly when the builder exited
/// with zero and the declared outputs are there.
pub open spec fn built(exit_code: i32, outputs_present: bool) -> Option<()> {
    if exit_code == 0 && outputs_present {
        Some(())
    } else {
        None
    }
}

/// The status with which a build ends: success where it produced its
/// outputs, error where it did not, canceled where it was dropped before
/// it returned.
pub open spec fn result_status(result: Option<Option<()>>) -> TaskStatusKind {
    match result {
        Some(Some(_)) => TaskStatusKind::Success,
        Some(None) => TaskStatusKind::Error,
        None => TaskStatusKind::Canceled,
    }
}

/// What a build that has ended with a status has produced: the inverse
/// of `result_status`.
pub open spec fn status_result(status: TaskStatusKind) -> Option<Option<()>> {
    match status {
        TaskStatusKind::Success => Some(Some(())),
        TaskStatusKind::Error => Some(None),
        _ => None,
    }
}

/// The status of a build and what it has produced determine each other.
pub proof fn lemma_status_result(result: Option<Option<()>>)
    ensures
        status_result(result_status(result)) == result,
{
}

impl Build {
    /// The handle of the build.
    pub fn handle(&self) -> (handle: handles::Build)
        ensures
            handle == build_handle(*self),
    {
        handles::build((self.build.drv.clone(), self.build.num as u64))
    }

    /// The description of the build.
    pub fn info(&self) -> (info: BuildInfo)
        ensures
            info == build_info((self.build, self.task.task)),
    {
        BuildInfo {
            handle: self.handle(),
            drv: self.build.drv.clone(),
            status: self.task.status(),
        }
    }

    /// The rows from which the build was read.
    pub fn row(&self) -> (row: BuildRow)
        ensures
            row == (self.build, self.task.task),
    {
        (self.build.clone(), self.task.task.clone())
    }

    /// What the builder has produced, from its exit code and from
    /// whether the declared outputs are there.
    pub fn result(exit_code: i32, outputs_present: bool) -> (result: Option<()>)
        ensures
            result == built(exit_code, outputs_present),
    {
        if exit_code == 0 && outputs_present {
            Some(())
        } else {
            None
        }
    }

    /// What the build has produced, read from the status of its task:
    /// its outputs after a success, nothing after a failure, and no
    /// result at all where the build was dropped or has not ended.
    pub fn outcome(&self) -> (result: Option<Option<()>>)
        ensures
            result == status_result(self.task.task.status),
    {
        match self.task.status_kind() {
            TaskStatusKind::Success => Some(Some(())),
            TaskStatusKind::Error => Some(None),
            _ => None,
        }
    }

    /// The status with which the build ends.
    pub fn finish(result: Option<Option<()>>) -> (status: TaskStatusKind)
        ensures
            status == result_status(result),
    {
        match result {
            Some(Some(_)) => TaskStatusKind::Success,
            Some(None) => TaskStatusKind::Error,
            None => TaskStatusKind::Canceled,
        }
    }
}

/// A live build: its id, its derivation and how many runs hold it.
#[derive(Debug, PartialEq, Eq)]
pub struct LiveBuild {
    pub id: i32,
    pub drv: String,
    pub refs: u64,
}

/// What a live build is, with its derivation as a sequence of characters.
pub struct LiveBuildView {
    pub id: i32,
    pub drv: Seq<char>,
    pub refs: u64,
}

impl View for LiveBuild {
    type V = LiveBuildView;

    open spec fn view(&self) -> LiveBuildView {
        LiveBuildView { id: self.id, drv: self.drv@, refs: self.refs }
    }
}

/// The builds that are pending or running.
pub struct Builds {
    live: Vec<LiveBuild>,
}

/// The views of a list of live builds.
pub open spec fn live_views(live: Seq<LiveBuild>) -> Seq<LiveBuildView> {
    live.map_values(|b: LiveBuild| b@)
}

/// Where the build of a derivation stands in the list: the place of the
/// first build of that derivation, or the length of the list.
pub open spec fn drv_slot(live: Seq<LiveBuildView>, drv: Seq<char>) -> int
    decreases live.len(),
{
    if live.len() == 0 {
        0
    } else if live[0].drv == drv {
        0
    } else {
        1 + drv_slot(live.drop_first(), drv)
    }
}

/// Where the build `id` stands in the list: the place of the first build
/// of that id, or the length of the list.
pub open spec fn id_slot(live: Seq<LiveBuildView>, id: i32) -> int
    decreases live.len(),
{
    if live.len() == 0 {
        0
    } else if live[0].id == id {
        0
    } else {
        1 + id_slot(live.drop_first(), id)
    }
}

/// No derivation has two live builds.
pub open spec fn one_build_per_drv(live: Seq<LiveBuildView>) -> bool {
    forall|i: int, j: int|
        0 <= i < j < live.len() ==> (#[trigger] live[i]).drv != (#[trigger] live[j]).drv
}

/// One more run holds the build.
pub open spec fn held_once_more(b: LiveBuildView) -> LiveBuildView {
    LiveBuildView {
        refs: if b.refs < u64::MAX {
            (b.refs + 1) as u64
        } else {
            b.refs
        },
        ..b
    }
}

/// One run fewer holds the build.
pub open spec fn held_once_less(b: LiveBuildView) -> LiveBuildView {
    LiveBuildView {
        refs: if b.refs > 0 {
            (b.refs - 1) as u64
        } else {
            b.refs
        },
        ..b
    }
}

/// The live builds after a run asks for `drv` and offers `id` for a new
/// build, with the id of the build that the run gets and whether that
/// build is new: the live build of `drv` is shared where there is one,
/// and a build `id` is started where there is none.
pub open spec fn requested(live: Seq<LiveBuildView>, drv: Seq<char>, id: i32) -> (
    Seq<LiveBuildView>,
    i32,
    bool,
) {
    let i = drv_slot(live, drv);
    if i < live.len() {
        (live.update(i, held_once_more(live[i])), live[i].id, false)
    } else {
        (live.push(LiveBuildView { id, drv, refs: 1 }), id, true)
    }
}

/// The live builds after a run lets go of the build `id`, with whether
/// the build is to be canceled: it is when the run was the last to hold
/// it.
pub open spec fn released(live: Seq<LiveBuildView>, id: i32) -> (Seq<LiveBuildView>, bool) {
    let i = id_slot(live, id);
    if i < live.len() {
        (live.update(i, held_once_less(live[i])), live[i].refs == 1)
    } else {
        (live, false)
    }
}

/// The live builds after the build `id` has ended.
pub open spec fn ended(live: Seq<LiveBuildView>, id: i32) -> Seq<LiveBuildView> {
    let i = id_slot(live, id);
    if i < live.len() {
        live.remove(i)
    } else {
        live
    }
}

/// A scan from the front finds the slot of a derivation.
pub proof fn lemma_drv_slot(live: Seq<LiveBuildView>, drv: Seq<char>, j: int)
    requires
        0 <= j <= live.len(),
        forall|m: int| 0 <= m < j ==> (#[trigger] live[m]).drv != drv,
        j < live.len() ==> live[j].drv == drv,
    ensures
        drv_slot(live, drv) == j,
    decreases j,
{
    if j > 0 {
        let rest = live.drop_first();
        assert(live[0].drv != drv);
        assert forall|m: int| 0 <= m < j - 1 implies (#[trigger] rest[m]).drv != drv by {
            assert(rest[m] == live[m + 1]);
        }
        if j < live.len() {
            assert(rest[j - 1] == live[j]);
        }
        lemma_drv_slot(rest, drv, j - 1);
    }
}

/// The slot of a derivation is within the list or at its end; within, it
/// holds a build of the derivation; no build before it does.
pub proof fn lemma_drv_slot_is_first(live: Seq<LiveBuildView>, drv: Seq<char>)
    ensures
        0 <= drv_slot(live, drv) <= live.len(),
        drv_slot(live, drv) < live.len() ==> live[drv_slot(live, drv)].drv == drv,
        forall|m: int| 0 <= m < drv_slot(live, drv) ==> (#[trigger] live[m]).drv != drv,
    decreases live.len(),
{
    if live.len() > 0 && live[0].drv != drv {
        let rest = live.drop_first();
        lemma_drv_slot_is_first(rest, drv);
        assert forall|m: int| 0 <= m < drv_slot(live, drv) implies (#[trigger] live[m]).drv
            != drv by {
            if m > 0 {
                assert(rest[m - 1] == live[m]);
            }
        }
    }
}

/// A scan from the front finds the slot of an id.
pub proof fn lemma_id_slot(live: Seq<LiveBuildView>, id: i32, j: int)
    requires
        0 <= j <= live.len(),
        forall|m: int| 0 <= m < j ==> (#[trigger] live[m]).id != id,
        j < live.len() ==> live[j].id == id,
    ensures
        id_slot(live, id) == j,
    decreases j,
{
    if j > 0 {
        let rest = live.drop_first();
        assert(live[0].id != id);
        assert forall|m: int| 0 <= m < j - 1 implies (#[trigger] rest[m]).id != id by {
            assert(rest[m] == live[m + 1]);
        }
        if j < live.len() {
            assert(rest[j - 1] == live[j]);
        }
        lemma_id_slot(rest, id, j - 1);
    }
}

/// The slot of an id is within the list or at its end.
pub proof fn lemma_id_slot_bounds(live: Seq<LiveBuildView>, id: i32)
    ensures
        0 <= id_slot(live, id) <= live.len(),
    decreases live.len(),
{
    if live.len() > 0 && live[0].id != id {
        lemma_id_slot_bounds(live.drop_first(), id);
    }
}

/// Whatever the runs ask of the builds, no derivation ever has two live
/// builds.
pub proof fn lemma_one_build_per_drv(live: Seq<LiveBuildView>, drv: Seq<char>, id: i32)
    requires
        one_build_per_drv(live),
    ensures
        one_build_per_drv(requested(live, drv, id).0),
        one_build_per_drv(released(live, id).0),
        one_build_per_drv(ended(live, id)),
{
    lemma_drv_slot_is_first(live, drv);
    lemma_id_slot_bounds(live, id);
    let asked = requested(live, drv, id).0;
    assert forall|a: int, b: int| 0 <= a < b < asked.len() implies (#[trigger] asked[a]).drv != (
    #[trigger] asked[b]).drv by {
        if b < live.len() {
            assert(live[a].drv != live[b].drv);
        } else {
            assert(live[a].drv != drv);
        }
    }
    let let_go = released(live, id).0;
    assert forall|a: int, b: int| 0 <= a < b < let_go.len() implies (#[trigger] let_go[a]).drv != (
    #[trigger] let_go[b]).drv by {
        assert(live[a].drv != live[b].drv);
    }
    let done = ended(live, id);
    let i = id_slot(live, id);
    assert forall|a: int, b: int| 0 <= a < b < done.len() implies (#[trigger] done[a]).drv != (
    #[trigger] done[b]).drv by {
        if i < live.len() {
            let a0 = if a < i {
                a
            } else {
                a + 1
            };
            let b0 = if b < i {
                b
            } else {
                b + 1
            };
            assert(done[a] == live[a0]);
            assert(done[b] == live[b0]);
            assert(live[a0].drv != live[b0].drv);
        } else {
            assert(live[a].drv != live[b].drv);
        }
    }
}

/// Two runs that ask for the same derivation while its build is live get
/// the same build, and only the first request starts one.
pub proof fn lemma_second_request_shares(
    live: Seq<LiveBuildView>,
    drv: Seq<char>,
    first: i32,
    second: i32,
)
    ensures
        requested(requested(live, drv, first).0, drv, second).1 == requested(live, drv, first).1,
        !requested(requested(live, drv, first).0, drv, second).2,
        requested(requested(live, drv, first).0, drv, second).0.len() == requested(
            live,
            drv,
            first,
        ).0.len(),
{
    lemma_drv_slot_is_first(live, drv);
    let i = drv_slot(live, drv);
    let once = requested(live, drv, first).0;
    assert forall|m: int| 0 <= m < i implies (#[trigger] once[m]).drv != drv by {
        assert(live[m].drv != drv);
    }
    lemma_drv_slot(once, drv, i);
}

impl View for Builds {
    type V = Seq<LiveBuildView>;

    closed spec fn view(&self) -> Seq<LiveBuildView> {
        live_views(self.live@)
    }
}

impl Builds {
    /// No live build.
    pub fn new() -> (builds: Self)
        ensures
            builds@ == Seq::<LiveBuildView>::empty(),
            one_build_per_drv(builds@),
    {
        let builds = Builds { live: Vec::new() };
        assert(builds@ =~= Seq::empty());
        builds
    }

    /// How many builds are live.
    pub fn len(&self) -> (len: usize)
        ensures
            len == self@.len(),
    {
        self.live.len()
    }

    fn find_drv(&self, drv: &str) -> (slot: usize)
        ensures
            slot == drv_slot(self@, drv@),
            slot <= self.live@.len(),
    {
        let drv = drv.to_owned();
        let mut j: usize = 0;
        while j < self.live.len() && !(self.live[j].drv == drv)
            invariant
                j <= self.live@.len(),
                forall|m: int| 0 <= m < j ==> (#[trigger] self.live@[m]).drv@ != drv@,
            decreases self.live@.len() - j,
        {
            j = j + 1;
        }
        proof {
            assert forall|m: int| 0 <= m < j implies (#[trigger] self@[m]).drv != drv@ by {
                assert(self.live@[m].drv@ != drv@);
            }
            lemma_drv_slot(self@, drv@, j as int);
        }
        j
    }

    fn find_id(&self, id: i32) -> (slot: usize)
        ensures
            slot == id_slot(self@, id),
            slot <= self.live@.len(),
    {
        let mut j: usize = 0;
        while j < self.live.len() && self.live[j].id != id
            invariant
                j <= self.live@.len(),
                forall|m: int| 0 <= m < j ==> (#[trigger] self.live@[m]).id != id,
            decreases self.live@.len() - j,
        {
            j = j + 1;
        }
        proof {
            assert forall|m: int| 0 <= m < j implies (#[trigger] self@[m]).id != id by {
                assert(self.live@[m].id != id);
            }
            lemma_id_slot(self@, id, j as int);
        }
        j
    }

    /// The live build of `drv`, if there is one.
    pub fn live_build(&self, drv: &str) -> (id: Option<i32>)
        ensures
            id == if drv_slot(self@, drv@) < self@.len() {
                Some(self@[drv_slot(self@, drv@)].id)
            } else {
                None
            },
    {
        let slot = self.find_drv(drv);
        if slot < self.live.len() {
            Some(self.live[slot].id)
        } else {
            None
        }
    }

    /// Serves a run that asks for `drv`: the live build of `drv` is
    /// shared where there is one; where there is none the build `id` is
    /// entered as live. Returns the id of the build that the run gets,
    /// and whether that build is new and has to be started.
    pub fn run(&mut self, drv: &str, id: i32) -> (got: (i32, bool))
        ensures
            final(self)@ == requested(old(self)@, drv@, id).0,
            got.0 == requested(old(self)@, drv@, id).1,
            got.1 == requested(old(self)@, drv@, id).2,
            one_build_per_drv(old(self)@) ==> one_build_per_drv(final(self)@),
    {
        proof {
            if one_build_per_drv(self@) {
                lemma_one_build_per_drv(self@, drv@, id);
            }
        }
        let slot = self.find_drv(drv);
        if slot < self.live.len() {
            let mut build = self.live.remove(slot);
            if build.refs < u64::MAX {
                build.refs = build.refs + 1;
            }
            let got = build.id;
            self.live.insert(slot, build);
            proof {
                assert(self@ =~= old(self)@.update(slot as int, held_once_more(old(self)@[slot as int])));
            }
            (got, false)
        } else {
            self.live.push(LiveBuild { id, drv: drv.to_owned(), refs: 1 });
            proof {
                assert(self@ =~= old(self)@.push(LiveBuildView { id, drv: drv@, refs: 1 }));
            }
            (id, true)
        }
    }

    /// Serves a run that lets go of the build `id`. Returns whether the
    /// build is to be canceled, which it is when no other run holds it.
    pub fn cancel(&mut self, id: i32) -> (last: bool)
        ensures
            final(self)@ == released(old(self)@, id).0,
            last == released(old(self)@, id).1,
            one_build_per_drv(old(self)@) ==> one_build_per_drv(final(self)@),
    {
        proof {
            if one_build_per_drv(self@) {
                lemma_one_build_per_drv(self@, Seq::empty(), id);
            }
        }
        let slot = self.find_id(id);
        if slot < self.live.len() {
            let mut build = self.live.remove(slot);
            let last = build.refs == 1;
            if build.refs > 0 {
                build.refs = build.refs - 1;
            }
            self.live.insert(slot, build);
            proof {
                assert(self@ =~= old(self)@.update(slot as int, held_once_less(old(self)@[slot as int])));
            }
            last
        } else {
            false
        }
    }

    /// Takes the build `id` out of the live builds once it has ended.
    pub fn finish(&mut self, id: i32)
        ensures
            final(self)@ == ended(old(self)@, id),
            one_build_per_drv(old(self)@) ==> one_build_per_drv(final(self)@),
    {
        proof {
            if one_build_per_drv(self@) {
                lemma_one_build_per_drv(self@, Seq::empty(), id);
            }
        }
        let slot = self.find_id(id);
        if slot < self.live.len() {
            let _ = self.live.remove(slot);
            proof {
                assert(self@ =~= old(self)@.remove(slot as int));
            }
        }
    }
}

} // verus!
