//! The task registry: which tasks are live, who may cancel them and who
//! waits for them.
//!
//! The registry is the state of one coordinator. Each request that reaches
//! the coordinator is one call here; the call changes the registry and
//! hands back what is to be done outside: cancelers to fire, tasks to
//! join, waiters to release. The types of cancelers (`C`), join handles
//! (`H`) and waiters (`W`) are the caller's.

use crate::data::TaskStatusKind;
use crate::models;
use crate::responses::TaskStatus;
use crate::status::task_status;
use std::collections::HashMap;
use vstd::prelude::*;

verus! {

broadcast use vstd::std_specs::hash::group_hash_axioms;

/// A task as the entities of the service hold it: its status record.
#[derive(Debug, PartialEq, Eq)]
pub struct Task {
    pub task: models::Task,
}

impl Clone for Task {
    fn clone(&self) -> (copy: Self)
        ensures
            copy == *self,
    {
        Task { task: self.task.clone() }
    }
}

impl Task {
    /// The status kind of the task.
    pub fn status_kind(&self) -> (kind: TaskStatusKind)
        ensures
            kind == self.task.status,
    {
        self.task.status_kind()
    }

    /// The status of the task with its timing.
    pub fn status(&self) -> (status: TaskStatus)
        ensures
            status == task_status(self.task),
    {
        self.task.status()
    }

    /// The log of the task.
    pub fn log(&self) -> (log: String)
        ensures
            log@ == self.task.log@,
    {
        self.task.read_log()
    }
}

/// Why the registry refuses a task.
#[derive(Clone, Copy, Debug, PartialEq, Eq, Structural)]
pub enum Error {
    ShuttingDown,
}

impl Error {
    /// The message of the error.
    pub fn to_string(&self) -> (text: String)
        ensures
            text@ == "Task manager is shutting down"@,
    {
        "Task manager is shutting down".to_owned()
    }
}

/// A request to the coordinator.
#[derive(Debug, PartialEq, Eq)]
pub enum Msg<C, H, W> {
    Cancel(i32),
    Finish(i32),
    Run(i32, C, H),
    Shutdown,
    Wait(i32, W),
}

/// A live task: its canceler while it has not been fired, the handle on
/// which its end is awaited, and those who wait for it.
#[derive(Debug, PartialEq, Eq)]
pub struct TaskHandle<C, H, W> {
    pub canceler: Option<C>,
    pub handle: H,
    pub waiters: Vec<W>,
}

/// What a live task is, with its waiters as a sequence.
pub struct TaskHandleView<C, H, W> {
    pub canceler: Option<C>,
    pub handle: H,
    pub waiters: Seq<W>,
}

impl<C, H, W> View for TaskHandle<C, H, W> {
    type V = TaskHandleView<C, H, W>;

    open spec fn view(&self) -> TaskHandleView<C, H, W> {
        TaskHandleView { canceler: self.canceler, handle: self.handle, waiters: self.waiters@ }
    }
}

/// The registry of live tasks, each under its id.
pub struct Tasks<C, H, W> {
    entries: HashMap<i32, TaskHandle<C, H, W>>,
    shut_down: bool,
}

/// What a registry is: its live tasks, each under its id, and whether it
/// was shut down.
pub struct TasksView<C, H, W> {
    pub entries: Map<i32, TaskHandleView<C, H, W>>,
    pub shut_down: bool,
}

/// What a coordinator is to do outside after a request, in this order:
/// fire each canceler in `cancel`; for each task in `join`, await its
/// handle and then release its waiters; release each waiter in `release`;
/// let go of `displaced`, which fires its canceler, releases its waiters
/// and leaves its task to itself.
#[derive(Debug, PartialEq, Eq)]
pub struct Effects<C, H, W> {
    pub cancel: Vec<C>,
    pub join: Vec<(i32, TaskHandle<C, H, W>)>,
    pub release: Vec<W>,
    pub displaced: Option<TaskHandle<C, H, W>>,
}

/// What the effects of a request are, as sequences.
pub struct EffectsView<C, H, W> {
    pub cancel: Seq<C>,
    pub join: Seq<(i32, TaskHandleView<C, H, W>)>,
    pub release: Seq<W>,
    pub displaced: Option<TaskHandleView<C, H, W>>,
}

/// The views of a list of tasks with their ids.
pub open spec fn views<C, H, W>(tasks: Seq<(i32, TaskHandle<C, H, W>)>) -> Seq<
    (i32, TaskHandleView<C, H, W>),
> {
    tasks.map_values(|p: (i32, TaskHandle<C, H, W>)| (p.0, p.1@))
}

/// The view of a task that may be absent.
pub open spec fn opt_view<C, H, W>(entry: Option<TaskHandle<C, H, W>>) -> Option<
    TaskHandleView<C, H, W>,
> {
    match entry {
        Some(e) => Some(e@),
        None => None,
    }
}

impl<C, H, W> View for Effects<C, H, W> {
    type V = EffectsView<C, H, W>;

    open spec fn view(&self) -> EffectsView<C, H, W> {
        EffectsView {
            cancel: self.cancel@,
            join: views(self.join@),
            release: self.release@,
            displaced: opt_view(self.displaced),
        }
    }
}

/// The ids of a list of tasks.
pub open spec fn ids<C, H, W>(tasks: Seq<(i32, TaskHandleView<C, H, W>)>) -> Seq<i32> {
    tasks.map_values(|p: (i32, TaskHandleView<C, H, W>)| p.0)
}

/// The cancelers that the tasks of a list still hold, in order.
pub open spec fn armed<C, H, W>(tasks: Seq<TaskHandleView<C, H, W>>) -> Seq<C>
    decreases tasks.len(),
{
    if tasks.len() == 0 {
        Seq::empty()
    } else {
        let rest = armed(tasks.drop_last());
        match tasks.last().canceler {
            Some(c) => rest.push(c),
            None => rest,
        }
    }
}

/// A task after its canceler was taken.
pub open spec fn disarm<C, H, W>(entry: TaskHandleView<C, H, W>) -> TaskHandleView<C, H, W> {
    TaskHandleView { canceler: None, ..entry }
}

/// A task that a waiter has joined.
pub open spec fn joined_by<C, H, W>(entry: TaskHandleView<C, H, W>, waiter: W) -> TaskHandleView<
    C,
    H,
    W,
> {
    TaskHandleView { waiters: entry.waiters.push(waiter), ..entry }
}

/// A task that was just registered.
pub open spec fn fresh<C, H, W>(canceler: C, handle: H) -> TaskHandleView<C, H, W> {
    TaskHandleView { canceler: Some(canceler), handle, waiters: Seq::empty() }
}

impl<C, H, W> EffectsView<C, H, W> {
    /// Nothing to do.
    pub open spec fn none() -> Self {
        EffectsView {
            cancel: Seq::empty(),
            join: Seq::empty(),
            release: Seq::empty(),
            displaced: None,
        }
    }
}

impl<C, H, W> TasksView<C, H, W> {
    /// The registry without a task, ready to take some.
    pub open spec fn empty() -> Self {
        TasksView { entries: Map::empty(), shut_down: false }
    }

    /// A registry that was shut down holds no task.
    pub open spec fn wf(self) -> bool {
        self.shut_down ==> self.entries == Map::<i32, TaskHandleView<C, H, W>>::empty()
    }

    /// Whether a task is registered under `id`.
    pub open spec fn registered(self, id: i32) -> bool {
        self.entries.contains_key(id)
    }

    /// The registry after a request to cancel `id`, and the canceler to
    /// fire: the one of the task `id`, if that task is registered and
    /// still holds it.
    pub open spec fn cancel(self, id: i32) -> (Self, Option<C>) {
        if self.entries.contains_key(id) {
            (
                TasksView { entries: self.entries.insert(id, disarm(self.entries[id])), ..self },
                self.entries[id].canceler,
            )
        } else {
            (self, None)
        }
    }

    /// The registry after a request to wait for `id`, and the waiter to
    /// release at once: the waiter joins the task `id` if that task is
    /// registered, and is released at once if not.
    pub open spec fn wait(self, id: i32, waiter: W) -> (Self, Option<W>) {
        if self.entries.contains_key(id) {
            (
                TasksView {
                    entries: self.entries.insert(id, joined_by(self.entries[id], waiter)),
                    ..self
                },
                None,
            )
        } else {
            (self, Some(waiter))
        }
    }

    /// The registry after the task `id` has run its finalizer, and the
    /// task that leaves it, if one was registered under `id`.
    pub open spec fn finish(self, id: i32) -> (Self, Option<TaskHandleView<C, H, W>>) {
        if self.entries.contains_key(id) {
            (TasksView { entries: self.entries.remove(id), ..self }, Some(self.entries[id]))
        } else {
            (self, None)
        }
    }

    /// The registry after a request to register a task under `id`, and
    /// the task that it displaces; or the refusal of a registry that was
    /// shut down.
    pub open spec fn run(self, id: i32, canceler: C, handle: H) -> Result<
        (Self, Option<TaskHandleView<C, H, W>>),
        Error,
    > {
        if self.shut_down {
            Err(Error::ShuttingDown)
        } else {
            Ok(
                (
                    TasksView { entries: self.entries.insert(id, fresh(canceler, handle)), ..self },
                    self.finish(id).1,
                ),
            )
        }
    }

    /// The registry after it was shut down: it holds no task and takes no
    /// more.
    pub open spec fn shutdown(self) -> Self {
        TasksView { entries: Map::empty(), shut_down: true }
    }

    /// Whether `cancelers` and `tasks` are what a shutdown hands out: the
    /// tasks are all those of the registry, each once and with its
    /// canceler taken, in the order in which the registry was walked, and
    /// the cancelers are those that the tasks still held, in the same
    /// order.
    pub open spec fn hands_out(
        self,
        cancelers: Seq<C>,
        tasks: Seq<(i32, TaskHandleView<C, H, W>)>,
    ) -> bool {
        &&& ids(tasks).no_duplicates()
        &&& ids(tasks).to_set() == self.entries.dom()
        &&& forall|i: int|
            0 <= i < tasks.len() ==> (#[trigger] tasks[i]).1 == disarm(self.entries[tasks[i].0])
        &&& cancelers == armed(ids(tasks).map_values(|id: i32| self.entries[id]))
    }

    /// The registry after a request other than a shutdown, with what is
    /// to be done outside; or the refusal of a registration after the
    /// shutdown.
    pub open spec fn handle(self, msg: Msg<C, H, W>) -> Result<(Self, EffectsView<C, H, W>), Error> {
        match msg {
            Msg::Cancel(id) => Ok(
                (
                    self.cancel(id).0,
                    EffectsView {
                        cancel: match self.cancel(id).1 {
                            Some(c) => seq![c],
                            None => Seq::empty(),
                        },
                        ..EffectsView::none()
                    },
                ),
            ),
            Msg::Finish(id) => Ok(
                (
                    self.finish(id).0,
                    EffectsView {
                        join: match self.finish(id).1 {
                            Some(e) => seq![(id, e)],
                            None => Seq::empty(),
                        },
                        ..EffectsView::none()
                    },
                ),
            ),
            Msg::Run(id, canceler, handle) => match self.run(id, canceler, handle) {
                Ok((next, displaced)) => Ok((next, EffectsView { displaced, ..EffectsView::none() })),
                Err(e) => Err(e),
            },
            Msg::Shutdown => Ok((self.shutdown(), EffectsView::none())),
            Msg::Wait(id, waiter) => Ok(
                (
                    self.wait(id, waiter).0,
                    EffectsView {
                        release: match self.wait(id, waiter).1 {
                            Some(w) => seq![w],
                            None => Seq::empty(),
                        },
                        ..EffectsView::none()
                    },
                ),
            ),
        }
    }

    /// Whether `res` is what a request leads to. A shutdown leaves the
    /// registry shut down and hands out every task and every canceler
    /// that is still held; any other request has one outcome.
    pub open spec fn handled(
        self,
        msg: Msg<C, H, W>,
        res: Result<(Self, EffectsView<C, H, W>), Error>,
    ) -> bool {
        match msg {
            Msg::Shutdown => res matches Ok((next, effects)) && next == self.shutdown()
                && self.hands_out(effects.cancel, effects.join) && effects.release
                == Seq::<W>::empty() && effects.displaced is None,
            _ => res == self.handle(msg),
        }
    }
}

/// The tasks of a registry, each under its id.
pub open spec fn entry_views<C, H, W>(entries: Map<i32, TaskHandle<C, H, W>>) -> Map<
    i32,
    TaskHandleView<C, H, W>,
> {
    Map::new(|id: i32| entries.contains_key(id), |id: i32| entries[id]@)
}

impl<C, H, W> View for Tasks<C, H, W> {
    type V = TasksView<C, H, W>;

    closed spec fn view(&self) -> TasksView<C, H, W> {
        TasksView { entries: entry_views(self.entries@), shut_down: self.shut_down }
    }
}

fn keys_of<C, H, W>(entries: &HashMap<i32, TaskHandle<C, H, W>>) -> (keys: Vec<i32>)
    ensures
        keys@.no_duplicates(),
        keys@.to_set() == entries@.dom(),
{
    let mut keys: Vec<i32> = Vec::new();
    for k in it: entries.keys()
        invariant
            it.seq().no_duplicates(),
            it.seq().unref().to_set() == entries@.dom(),
            keys@ == it.seq().unref().take(it.index() as int),
            keys@.no_duplicates(),
            it.index() == it.seq().len() ==> keys@.to_set() == entries@.dom(),
    {
        keys.push(*k);
        assert(keys@ =~= it.seq().unref().take(it.index() as int + 1));
        assert forall|a: int, b: int| 0 <= a < keys@.len() && 0 <= b < keys@.len() && a
            != b implies keys@[a] != keys@[b] by {
            assert(it.seq().unref()[a] == *it.seq()[a]);
            assert(it.seq().unref()[b] == *it.seq()[b]);
            assert(it.seq()[a] != it.seq()[b]);
        }
        assert(it.index() + 1 == it.seq().len() ==> keys@ =~= it.seq().unref());
    }
    keys
}

/// A list that is one longer holds what the shorter one holds, and its
/// last entry.
proof fn lemma_take_next(keys: Seq<i32>, k: int)
    requires
        0 <= k < keys.len(),
    ensures
        keys.take(k + 1).to_set() == keys.take(k).to_set().insert(keys[k]),
        keys.no_duplicates() ==> !keys.take(k).contains(keys[k]),
{
    let done = keys.take(k);
    let now = keys.take(k + 1);
    assert forall|a: i32| now.contains(a) <==> (done.contains(a) || a == keys[k]) by {
        if now.contains(a) {
            let j = choose|j: int| 0 <= j < now.len() && now[j] == a;
            if j < k {
                assert(done[j] == a);
            }
        }
        if done.contains(a) {
            let j = choose|j: int| 0 <= j < done.len() && done[j] == a;
            assert(now[j] == a);
        }
        assert(now[k] == keys[k]);
    }
    assert(now.to_set() =~= done.to_set().insert(keys[k]));
    if keys.no_duplicates() && done.contains(keys[k]) {
        let j = choose|j: int| 0 <= j < done.len() && done[j] == keys[k];
        assert(keys[j] == keys[k]);
    }
}

impl<C, H, W> Tasks<C, H, W> {
    /// A registry without a task.
    pub fn new() -> (tasks: Self)
        ensures
            tasks@ == TasksView::<C, H, W>::empty(),
            tasks@.wf(),
    {
        let tasks = Tasks { entries: HashMap::new(), shut_down: false };
        assert(tasks@.entries =~= Map::empty());
        tasks
    }

    /// Whether the registry was shut down.
    pub fn is_shut_down(&self) -> (down: bool)
        ensures
            down == self@.shut_down,
    {
        self.shut_down
    }

    /// How many tasks are live.
    pub fn len(&self) -> (len: usize)
        ensures
            len == self@.entries.len(),
    {
        assert(self@.entries.dom() =~= self.entries@.dom());
        self.entries.len()
    }

    /// Whether a task is registered under `id`.
    pub fn is_registered(&self, id: i32) -> (registered: bool)
        ensures
            registered == self@.registered(id),
    {
        self.entries.contains_key(&id)
    }

    /// Registers a task under `id` with its canceler and its handle. A
    /// task that was registered under `id` before is displaced and handed
    /// back. A registry that was shut down refuses and stays as it is.
    pub fn run(&mut self, id: i32, canceler: C, handle: H) -> (res: Result<
        Option<TaskHandle<C, H, W>>,
        Error,
    >)
        ensures
            match old(self)@.run(id, canceler, handle) {
                Ok((next, displaced)) => res matches Ok(d) && opt_view(d) == displaced && final(self)@ == next,
                Err(e) => res == Err::<Option<TaskHandle<C, H, W>>, Error>(e) && final(self)@
                    == old(self)@,
            },
            old(self)@.wf() ==> final(self)@.wf(),
    {
        if self.shut_down {
            return Err(Error::ShuttingDown);
        }
        let displaced = self.entries.insert(
            id,
            TaskHandle { canceler: Some(canceler), handle, waiters: Vec::new() },
        );
        proof {
            assert(self@.entries =~= old(self)@.entries.insert(id, fresh(canceler, handle)));
        }
        Ok(displaced)
    }

    /// Takes the canceler of the task `id` for it to be fired. Nothing
    /// is taken, and nothing changes, if no task is registered under
    /// `id` or if its canceler was taken before.
    pub fn cancel(&mut self, id: i32) -> (canceler: Option<C>)
        ensures
            final(self)@ == old(self)@.cancel(id).0,
            canceler == old(self)@.cancel(id).1,
            old(self)@.wf() ==> final(self)@.wf(),
    {
        match self.entries.remove(&id) {
            Some(entry) => {
                let mut entry = entry;
                let canceler = entry.canceler.take();
                self.entries.insert(id, entry);
                proof {
                    assert(self@.entries =~= old(self)@.entries.insert(
                        id,
                        disarm(old(self)@.entries[id]),
                    ));
                }
                canceler
            },
            None => {
                proof {
                    assert(self@.entries =~= old(self)@.entries);
                }
                None
            },
        }
    }

    /// Lets `waiter` wait for the task `id`. Where no task is registered
    /// under `id` the waiter is handed back, to be released at once.
    pub fn wait(&mut self, id: i32, waiter: W) -> (release: Option<W>)
        ensures
            final(self)@ == old(self)@.wait(id, waiter).0,
            release == old(self)@.wait(id, waiter).1,
            old(self)@.wf() ==> final(self)@.wf(),
    {
        match self.entries.remove(&id) {
            Some(entry) => {
                let mut entry = entry;
                entry.waiters.push(waiter);
                self.entries.insert(id, entry);
                proof {
                    assert(self@.entries =~= old(self)@.entries.insert(
                        id,
                        joined_by(old(self)@.entries[id], waiter),
                    ));
                }
                None
            },
            None => {
                proof {
                    assert(self@.entries =~= old(self)@.entries);
                }
                Some(waiter)
            },
        }
    }

    /// Takes the task `id` out of the registry once its finalizer has
    /// run, and hands it back: its handle is to be awaited, and then its
    /// waiters are to be released.
    pub fn finish(&mut self, id: i32) -> (finished: Option<TaskHandle<C, H, W>>)
        ensures
            final(self)@ == old(self)@.finish(id).0,
            opt_view(finished) == old(self)@.finish(id).1,
            old(self)@.wf() ==> final(self)@.wf(),
    {
        let finished = self.entries.remove(&id);
        proof {
            if old(self)@.entries.contains_key(id) {
                assert(self@.entries =~= old(self)@.entries.remove(id));
            } else {
                assert(self@.entries =~= old(self)@.entries);
            }
        }
        finished
    }

    /// Shuts the registry down: hands back the cancelers that are still
    /// held, to be fired, and every task with its id, to be joined; the
    /// registry is left without a task and refuses any further one. The
    /// tasks come in the order in which the registry is walked, which is
    /// not determined.
    pub fn shutdown(&mut self) -> (out: (Vec<C>, Vec<(i32, TaskHandle<C, H, W>)>))
        ensures
            final(self)@ == old(self)@.shutdown(),
            old(self)@.hands_out(out.0@, views(out.1@)),
            final(self)@.wf(),
    {
        let keys = keys_of(&self.entries);
        let mut cancelers: Vec<C> = Vec::new();
        let mut tasks: Vec<(i32, TaskHandle<C, H, W>)> = Vec::new();
        let ghost was = self@.entries;
        let ghost held = |id: i32| was[id];
        let mut k: usize = 0;
        proof {
            assert(keys@.take(0).to_set() =~= Set::<i32>::empty());
            assert(self.entries@ =~= old(self).entries@.remove_keys(keys@.take(0).to_set()));
            assert(was.dom() =~= old(self).entries@.dom());
            assert(keys@.take(0).map_values(held) =~= Seq::empty());
        }
        while k < keys.len()
            invariant
                k <= keys.len(),
                keys@.no_duplicates(),
                keys@.to_set() == old(self).entries@.dom(),
                was == entry_views(old(self).entries@),
                held == |id: i32| was[id],
                self.shut_down == old(self).shut_down,
                self.entries@ == old(self).entries@.remove_keys(keys@.take(k as int).to_set()),
                ids(views(tasks@)) == keys@.take(k as int),
                forall|i: int|
                    0 <= i < k ==> (#[trigger] views(tasks@)[i]).1 == disarm(was[keys@[i]]),
                cancelers@ == armed(keys@.take(k as int).map_values(held)),
            decreases keys.len() - k,
        {
            let id = keys[k];
            proof {
                lemma_take_next(keys@, k as int);
                assert(keys@.to_set().contains(keys@[k as int]));
                assert(self.entries@.contains_key(id));
            }
            let ghost before = views(tasks@);
            match self.entries.remove(&id) {
                Some(entry) => {
                    let mut entry = entry;
                    match entry.canceler.take() {
                        Some(c) => {
                            cancelers.push(c);
                        },
                        None => {},
                    }
                    tasks.push((id, entry));
                },
                None => {},
            }
            proof {
                let now = keys@.take(k as int + 1);
                assert(now.drop_last() =~= keys@.take(k as int));
                assert(now.map_values(held).drop_last() =~= keys@.take(k as int).map_values(held));
                assert(now.map_values(held).last() == was[id]);
                assert(views(tasks@) =~= before.push((id, disarm(was[id]))));
                assert(ids(views(tasks@)) =~= now);
                assert(self.entries@ =~= old(self).entries@.remove_keys(now.to_set()));
            }
            k = k + 1;
        }
        self.shut_down = true;
        proof {
            assert(keys@.take(keys@.len() as int) =~= keys@);
            assert(self@.entries =~= Map::empty());
            assert(was.dom() =~= old(self).entries@.dom());
        }
        (cancelers, tasks)
    }

    /// Serves one request: changes the registry as the request asks and
    /// hands back what is to be done outside. The only request that can
    /// be refused is a registration after the shutdown.
    pub fn handle(&mut self, msg: Msg<C, H, W>) -> (res: Result<Effects<C, H, W>, Error>)
        ensures
            match res {
                Ok(effects) => old(self)@.handled(
                    msg,
                    Ok::<(TasksView<C, H, W>, EffectsView<C, H, W>), Error>((final(self)@, effects@)),
                ),
                Err(e) => old(self)@.handled(
                    msg,
                    Err::<(TasksView<C, H, W>, EffectsView<C, H, W>), Error>(e),
                ) && final(self)@ == old(self)@,
            },
            old(self)@.wf() ==> final(self)@.wf(),
    {
        let mut effects = Effects {
            cancel: Vec::new(),
            join: Vec::new(),
            release: Vec::new(),
            displaced: None,
        };
        proof {
            assert(views(effects.join@) =~= Seq::empty());
        }
        match msg {
            Msg::Cancel(id) => {
                match self.cancel(id) {
                    Some(c) => {
                        effects.cancel.push(c);
                        assert(effects.cancel@ =~= seq![c]);
                    },
                    None => {},
                }
            },
            Msg::Finish(id) => {
                match self.finish(id) {
                    Some(entry) => {
                        effects.join.push((id, entry));
                        assert(views(effects.join@) =~= seq![(id, entry@)]);
                    },
                    None => {},
                }
            },
            Msg::Run(id, canceler, handle) => {
                match self.run(id, canceler, handle) {
                    Ok(displaced) => {
                        effects.displaced = displaced;
                    },
                    Err(e) => {
                        return Err(e);
                    },
                }
            },
            Msg::Shutdown => {
                let (cancelers, tasks) = self.shutdown();
                effects.cancel = cancelers;
                effects.join = tasks;
            },
            Msg::Wait(id, waiter) => {
                match self.wait(id, waiter) {
                    Some(w) => {
                        effects.release.push(w);
                        assert(effects.release@ =~= seq![w]);
                    },
                    None => {},
                }
            },
        }
        Ok(effects)
    }
}

/// Where a registered task stands between its start and its end.
#[derive(Clone, Copy, Debug, PartialEq, Eq, Structural)]
pub enum TaskState {
    /// The work runs, and the canceler may still stop it.
    Running,
    /// The work is over and the finalizer runs.
    Finalizing,
    /// The finalizer has returned and the registry was told.
    Finished,
}

/// What can happen to a registered task.
#[derive(Debug, PartialEq, Eq)]
pub enum TaskEvent<T> {
    /// The work has completed with a value.
    Completed(T),
    /// The task has seen that its canceler was fired or dropped.
    Canceled,
    /// The work has failed without a value.
    Failed,
    /// The finalizer has returned.
    Finalized,
}

/// What a registered task does next.
#[derive(Debug, PartialEq, Eq)]
pub enum TaskAction<T> {
    /// Run the finalizer with the outcome of the work: its value, or
    /// nothing where the work was canceled or has failed.
    Finalize(Option<T>),
    /// Tell the registry that the task has finished.
    Finish,
    /// Nothing.
    Idle,
}

/// How a task reacts to an event: the first end of the work starts the
/// finalizer, with the value of the work where it completed and with
/// nothing where it was canceled or has failed; the return of the
/// finalizer is reported to the registry; anything else changes nothing.
pub open spec fn task_next<T>(state: TaskState, event: TaskEvent<T>) -> (TaskState, TaskAction<T>) {
    match (state, event) {
        (TaskState::Running, TaskEvent::Completed(value)) => (
            TaskState::Finalizing,
            TaskAction::Finalize(Some(value)),
        ),
        (TaskState::Running, TaskEvent::Canceled) => (
            TaskState::Finalizing,
            TaskAction::Finalize(None),
        ),
        (TaskState::Running, TaskEvent::Failed) => (
            TaskState::Finalizing,
            TaskAction::Finalize(None),
        ),
        (TaskState::Finalizing, TaskEvent::Finalized) => (TaskState::Finished, TaskAction::Finish),
        _ => (state, TaskAction::Idle),
    }
}

/// Whether an event ends the work of a running task.
pub open spec fn ends_work<T>(event: TaskEvent<T>) -> bool {
    event is Completed || event is Canceled || event is Failed
}

/// Where a task stands after a history of events, with how often its
/// finalizer was started and how often the registry was told of its end.
pub open spec fn task_run<T>(state: TaskState, events: Seq<TaskEvent<T>>) -> (TaskState, nat, nat)
    decreases events.len(),
{
    if events.len() == 0 {
        (state, 0, 0)
    } else {
        let before = task_run(state, events.drop_last());
        let (next, action) = task_next(before.0, events.last());
        (
            next,
            before.1 + if action is Finalize {
                1nat
            } else {
                0nat
            },
            before.2 + if action is Finish {
                1nat
            } else {
                0nat
            },
        )
    }
}

/// The reaction of a task to one event.
pub fn task_step<T>(state: TaskState, event: TaskEvent<T>) -> (next: (TaskState, TaskAction<T>))
    ensures
        next == task_next(state, event),
{
    match state {
        TaskState::Running => match event {
            TaskEvent::Completed(value) => (
                TaskState::Finalizing,
                TaskAction::Finalize(Some(value)),
            ),
            TaskEvent::Canceled => (TaskState::Finalizing, TaskAction::Finalize(None)),
            TaskEvent::Failed => (TaskState::Finalizing, TaskAction::Finalize(None)),
            TaskEvent::Finalized => (state, TaskAction::Idle),
        },
        TaskState::Finalizing => match event {
            TaskEvent::Finalized => (TaskState::Finished, TaskAction::Finish),
            _ => (state, TaskAction::Idle),
        },
        TaskState::Finished => (state, TaskAction::Idle),
    }
}

/// Whatever happens to a registered task, and in whatever order, its
/// finalizer is started at most once, and exactly once as soon as its work
/// has ended, by completion, by cancellation or by failure; the registry
/// is told of its end at most once, and only after the finalizer was
/// started.
pub proof fn lemma_finalizer_runs_once<T>(events: Seq<TaskEvent<T>>)
    ensures
        task_run(TaskState::Running, events).1 <= 1,
        task_run(TaskState::Running, events).1 == 1 <==> exists|i: int|
            0 <= i < events.len() && ends_work(#[trigger] events[i]),
        task_run(TaskState::Running, events).1 == 1 <==> task_run(TaskState::Running, events).0
            != TaskState::Running,
        task_run(TaskState::Running, events).2 <= task_run(TaskState::Running, events).1,
        task_run(TaskState::Running, events).2 == 1 <==> task_run(TaskState::Running, events).0
            == TaskState::Finished,
    decreases events.len(),
{
    if events.len() > 0 {
        let front = events.drop_last();
        lemma_finalizer_runs_once(front);
        if exists|i: int| 0 <= i < front.len() && ends_work(#[trigger] front[i]) {
            let i = choose|i: int| 0 <= i < front.len() && ends_work(#[trigger] front[i]);
            assert(ends_work(events[i]));
        }
        if exists|i: int| 0 <= i < events.len() && ends_work(#[trigger] events[i]) {
            let i = choose|i: int| 0 <= i < events.len() && ends_work(#[trigger] events[i]);
            if i < front.len() {
                assert(ends_work(front[i]));
            }
        }
        if ends_work(events.last()) {
            assert(ends_work(events[events.len() - 1]));
        }
    }
}

/// A running task that sees its cancellation runs its finalizer without
/// a value and, once the finalizer has returned, tells the registry of
/// its end.
pub proof fn lemma_canceled_task_finishes<T>()
    ensures
        task_run(TaskState::Running, seq![TaskEvent::<T>::Canceled, TaskEvent::<T>::Finalized])
            == (TaskState::Finished, 1nat, 1nat),
        task_next(TaskState::Running, TaskEvent::<T>::Canceled).1 == TaskAction::<T>::Finalize(
            None,
        ),
        task_next(TaskState::Finalizing, TaskEvent::<T>::Finalized).1 == TaskAction::<T>::Finish,
{
    let events = seq![TaskEvent::<T>::Canceled, TaskEvent::<T>::Finalized];
    reveal_with_fuel(task_run, 3);
    assert(events.drop_last() =~= seq![TaskEvent::<T>::Canceled]);
    assert(events.drop_last().drop_last() =~= Seq::<TaskEvent<T>>::empty());
}

/// A second request to cancel a task changes nothing and hands out
/// nothing.
pub proof fn lemma_cancel_idempotent<C, H, W>(tasks: TasksView<C, H, W>, id: i32)
    ensures
        tasks.cancel(id).0.cancel(id) == (tasks.cancel(id).0, None::<C>),
{
    let once = tasks.cancel(id).0;
    if tasks.entries.contains_key(id) {
        assert(once.entries.insert(id, disarm(once.entries[id])) =~= once.entries);
    }
}

/// A request to wait for an id under which no task is registered
/// releases the waiter at once and leaves the registry as it is.
pub proof fn lemma_wait_unknown<C, H, W>(tasks: TasksView<C, H, W>, id: i32, waiter: W)
    requires
        !tasks.registered(id),
    ensures
        tasks.wait(id, waiter) == (tasks, Some(waiter)),
{
}

/// A task that has finished is no longer registered, so that whoever
/// asks to wait for it from then on is released at once.
pub proof fn lemma_finished_is_gone<C, H, W>(tasks: TasksView<C, H, W>, id: i32, waiter: W)
    ensures
        !tasks.finish(id).0.registered(id),
        tasks.finish(id).0.wait(id, waiter) == (tasks.finish(id).0, Some(waiter)),
{
}

/// Canceling a registered task and then waiting for it ends as soon as
/// the task has finished: the canceler that the task held is handed out,
/// the waiter joins the task, and when the task finishes it leaves the
/// registry with that waiter among those to release.
pub proof fn lemma_cancel_then_wait<C, H, W>(tasks: TasksView<C, H, W>, id: i32, waiter: W)
    requires
        tasks.registered(id),
    ensures
        tasks.cancel(id).1 == tasks.entries[id].canceler,
        tasks.cancel(id).0.wait(id, waiter).1 is None,
        tasks.cancel(id).0.wait(id, waiter).0.finish(id).1 == Some(
            joined_by(disarm(tasks.entries[id]), waiter),
        ),
        !tasks.cancel(id).0.wait(id, waiter).0.finish(id).0.registered(id),
{
}

/// After a shutdown no task is live, every further registration is
/// refused, and whoever asks to wait is released at once.
pub proof fn lemma_after_shutdown<C, H, W>(
    tasks: TasksView<C, H, W>,
    id: i32,
    canceler: C,
    handle: H,
    waiter: W,
)
    ensures
        tasks.shutdown().entries.len() == 0,
        tasks.shutdown().wf(),
        !tasks.shutdown().registered(id),
        tasks.shutdown().run(id, canceler, handle) == Err::<
            (TasksView<C, H, W>, Option<TaskHandleView<C, H, W>>),
            Error,
        >(Error::ShuttingDown),
        tasks.shutdown().wait(id, waiter) == (tasks.shutdown(), Some(waiter)),
        tasks.shutdown().cancel(id) == (tasks.shutdown(), None::<C>),
        tasks.shutdown().shutdown() == tasks.shutdown(),
{
}

/// A shutdown hands out each task of the registry exactly once, and as
/// many cancelers as tasks still held one.
pub proof fn lemma_shutdown_hands_out_all<C, H, W>(
    tasks: TasksView<C, H, W>,
    cancelers: Seq<C>,
    joined: Seq<(i32, TaskHandleView<C, H, W>)>,
    id: i32,
)
    requires
        tasks.hands_out(cancelers, joined),
    ensures
        tasks.registered(id) <==> ids(joined).contains(id),
        tasks.entries.dom().finite() ==> joined.len() == tasks.entries.len(),
        cancelers.len() <= joined.len(),
{
    if tasks.registered(id) {
        assert(ids(joined).to_set().contains(id));
    }
    if ids(joined).contains(id) {
        assert(ids(joined).to_set().contains(id));
    }
    ids(joined).unique_seq_to_set();
    lemma_armed_len(ids(joined).map_values(|id: i32| tasks.entries[id]));
}

/// No more cancelers are held than there are tasks.
pub proof fn lemma_armed_len<C, H, W>(tasks: Seq<TaskHandleView<C, H, W>>)
    ensures
        armed(tasks).len() <= tasks.len(),
    decreases tasks.len(),
{
    if tasks.len() > 0 {
        lemma_armed_len(tasks.drop_last());
    }
}

/// A registry that was shut down stays shut down and empty, whatever is
/// asked of it: it refuses every registration, releases at once whoever
/// asks to wait, and has nothing else to do.
pub proof fn lemma_shutdown_is_final<C, H, W>(
    tasks: TasksView<C, H, W>,
    msg: Msg<C, H, W>,
    res: Result<(TasksView<C, H, W>, EffectsView<C, H, W>), Error>,
)
    requires
        tasks.wf(),
        tasks.shut_down,
        tasks.handled(msg, res),
    ensures
        match res {
            Ok((next, effects)) => next == tasks && effects == (EffectsView::<C, H, W> {
                release: match msg {
                    Msg::Wait(_, waiter) => seq![waiter],
                    _ => Seq::empty(),
                },
                ..EffectsView::none()
            }),
            Err(e) => msg is Run && e == Error::ShuttingDown,
        },
{
    match msg {
        Msg::Shutdown => {
            let effects = res->Ok_0.1;
            assert(ids(effects.join).to_set() =~= Set::<i32>::empty());
            if effects.join.len() > 0 {
                assert(ids(effects.join)[0] == effects.join[0].0);
                assert(ids(effects.join).to_set().contains(ids(effects.join)[0]));
            }
            assert(effects.join =~= Seq::empty());
            assert(ids(effects.join).map_values(|id: i32| tasks.entries[id]) =~= Seq::empty());
            assert(effects.cancel =~= Seq::empty());
        },
        _ => {},
    }
}

/// Every request leaves a well-formed registry well formed.
pub proof fn lemma_handle_keeps_wf<C, H, W>(
    tasks: TasksView<C, H, W>,
    msg: Msg<C, H, W>,
    res: Result<(TasksView<C, H, W>, EffectsView<C, H, W>), Error>,
)
    requires
        tasks.wf(),
        tasks.handled(msg, res),
    ensures
        res matches Ok((next, _)) ==> next.wf(),
{
}

} // verus!
