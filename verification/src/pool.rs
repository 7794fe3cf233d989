//! The task pool: the single source of truth for task lifecycle.
//!
//! The pool owns the queue of task records, the claim operation that hands
//! the oldest `Init` task to exactly one worker, and the report operations
//! that close a claimed task. Every operation is one atomic unit from the
//! caller's point of view: callers serialize access to the pool (the
//! surrounding process keeps it behind one exclusive handle), and each
//! contract below relates the whole state before the call to the whole
//! state after it, so no task is ever left half-updated.

use vstd::prelude::*;

use crate::errors::ProxyError;
use crate::outside::fresh_uuid;
use crate::task::{
    all_wf, claim_rel, claim_step, created_ordered, distinct_ids, has_task, is_first_init,
    no_init, report_rel, Task, TaskState,
};

verus! {

/// Every stamp in `s` was drawn from a clock that now reads `c`.
pub open spec fn stamps_bounded(s: Seq<Task>, c: u64) -> bool {
    forall|i: int| 0 <= i < s.len()
        ==> (#[trigger] s[i]).created_at <= c && s[i].updated_at <= c
}

/// `t` is a freshly created record: in `Init`, unclaimed, without results,
/// carrying `id`, `miner` and `resource_id`.
pub open spec fn new_task_rel(t: Task, id: Seq<char>, miner: Seq<char>, resource_id: Seq<char>) -> bool {
    &&& t.id@ == id
    &&& t.miner@ == miner
    &&& t.resource_id@ == resource_id
    &&& t.state == TaskState::Init
    &&& t.worker_id@.len() == 0
    &&& t.proof@.len() == 0
    &&& t.error_msg@.len() == 0
    &&& t.created_at == t.updated_at
}

/// The whole effect of one successful `add_task`: a fresh record appended,
/// everything else untouched.
pub open spec fn add_step(s0: Seq<Task>, s1: Seq<Task>, id: Seq<char>, miner: Seq<char>, resource_id: Seq<char>) -> bool {
    &&& !has_task(s0, id)
    &&& s1.len() == s0.len() + 1
    &&& forall|j: int| 0 <= j < s0.len() ==> s1[j] == s0[j]
    &&& new_task_rel(s1.last(), id, miner, resource_id)
}

/// The whole effect of one successful report: the task with id `tid`,
/// `Running` and owned by `w`, moved to the terminal state `st` with
/// `payload` stored, everything else untouched.
pub open spec fn report_step(s0: Seq<Task>, s1: Seq<Task>, tid: Seq<char>, w: Seq<char>, st: TaskState, payload: Seq<char>) -> bool {
    exists|i: int|
        {
            &&& 0 <= i < s0.len()
            &&& (#[trigger] s0[i]).id@ == tid
            &&& s0[i].state == TaskState::Running
            &&& s0[i].worker_id@ == w
            &&& s1.len() == s0.len()
            &&& report_rel(s0[i], s1[i], st, payload)
            &&& forall|j: int| 0 <= j < s0.len() && j != i ==> s1[j] == s0[j]
        }
}

/// The tasks of `s` that are `Running` and owned by `w`, in queue order.
pub open spec fn owned_running(s: Seq<Task>, w: Seq<char>) -> Seq<Task>
    decreases s.len(),
{
    if s.len() == 0 {
        Seq::empty()
    } else {
        let prefix = owned_running(s.drop_last(), w);
        if s.last().state == TaskState::Running && s.last().worker_id@ == w {
            prefix.push(s.last())
        } else {
            prefix
        }
    }
}

/// The view of an optional string filter.
pub open spec fn opt_str_view(o: Option<String>) -> Option<Seq<char>> {
    match o {
        Some(s) => Some(s@),
        None => None,
    }
}

/// Whether `t` passes the two optional filters of `list_task`; both given
/// means both must hold.
pub open spec fn selected(t: Task, w: Option<Seq<char>>, sts: Option<Seq<TaskState>>) -> bool {
    &&& match w {
        Some(ws) => t.worker_id@ == ws,
        None => true,
    }
    &&& match sts {
        Some(ss) => ss.contains(t.state),
        None => true,
    }
}

/// The tasks of `s` passing both filters, in queue order.
pub open spec fn select_tasks(s: Seq<Task>, w: Option<Seq<char>>, sts: Option<Seq<TaskState>>) -> Seq<Task>
    decreases s.len(),
{
    if s.len() == 0 {
        Seq::empty()
    } else {
        let prefix = select_tasks(s.drop_last(), w, sts);
        if selected(s.last(), w, sts) {
            prefix.push(s.last())
        } else {
            prefix
        }
    }
}

/// The durable task queue and the worker-identity record.
pub struct TaskPool {
    tasks: Vec<Task>,
    worker: Option<String>,
    clock: u64,
}

impl TaskPool {
    /// The queue of task records, oldest first.
    pub closed spec fn tasks_view(self) -> Seq<Task> {
        self.tasks@
    }

    /// The persisted worker identity, if one was ever established.
    pub closed spec fn worker_view(self) -> Option<String> {
        self.worker
    }

    /// The stamp clock; it never runs backwards.
    pub closed spec fn clock_spec(self) -> u64 {
        self.clock
    }

    /// The pool's invariant: every record well-formed, ids unique, records
    /// in creation order, stamps drawn from the clock.
    pub open spec fn wf(self) -> bool {
        &&& all_wf(self.tasks_view())
        &&& distinct_ids(self.tasks_view())
        &&& created_ordered(self.tasks_view())
        &&& stamps_bounded(self.tasks_view(), self.clock_spec())
    }

    /// An empty pool with no worker identity.
    pub fn new() -> (p: TaskPool)
        ensures
            p.wf(),
            p.tasks_view().len() == 0,
            p.worker_view() matches None,
    {
        TaskPool { tasks: Vec::new(), worker: None, clock: 0 }
    }

    /// Advance the clock by one step, saturating at its cap.
    fn tick(&mut self) -> (stamp: u64)
        ensures
            stamp >= old(self).clock_spec(),
            stamp == final(self).clock_spec(),
            final(self).tasks_view() == old(self).tasks_view(),
            final(self).worker_view() == old(self).worker_view(),
    {
        if self.clock < u64::MAX {
            self.clock = self.clock + 1;
        }
        self.clock
    }

    /// The index of the task with id `tid`, if any.
    fn index_of(&self, tid: &String) -> (r: Option<usize>)
        ensures
            match r {
                Some(i) => i < self.tasks_view().len() && self.tasks_view()[i as int].id@ == tid@,
                None => !has_task(self.tasks_view(), tid@),
            },
    {
        let n = self.tasks.len();
        let mut i: usize = 0;
        while i < n
            invariant
                n == self.tasks_view().len(),
                i <= n,
                forall|j: int| 0 <= j < i ==> (#[trigger] self.tasks_view()[j]).id@ != tid@,
            decreases n - i,
        {
            if self.tasks[i].id == *tid {
                return Some(i);
            }
            i = i + 1;
        }
        None
    }

    /// Create a task in `Init` with a freshly generated id. Fails only when
    /// the generated id collides with a stored one, the storage-layer fault
    /// of this backend; no partial mutation remains in that case.
    pub fn add_task(&mut self, miner: &String, resource_id: &String) -> (r: Result<String, ProxyError>)
        requires
            old(self).wf(),
        ensures
            final(self).wf(),
            final(self).worker_view() == old(self).worker_view(),
            match r {
                Ok(id) => add_step(old(self).tasks_view(), final(self).tasks_view(), id@, miner@, resource_id@),
                Err(e) => e == ProxyError::Storage
                    && final(self).tasks_view() == old(self).tasks_view(),
            },
    {
        let id = fresh_uuid();
        self.add_task_with_id(id, miner, resource_id)
    }

    /// Create a task in `Init` under the given id: succeeds exactly when no
    /// stored task carries `id` yet, and changes nothing otherwise.
    pub fn add_task_with_id(&mut self, id: String, miner: &String, resource_id: &String) -> (r:
        Result<String, ProxyError>)
        requires
            old(self).wf(),
        ensures
            final(self).wf(),
            final(self).worker_view() == old(self).worker_view(),
            match r {
                Ok(out) => out@ == id@
                    && add_step(old(self).tasks_view(), final(self).tasks_view(), id@, miner@, resource_id@),
                Err(e) => {
                    &&& e == ProxyError::Storage
                    &&& has_task(old(self).tasks_view(), id@)
                    &&& final(self).tasks_view() == old(self).tasks_view()
                },
            },
    {
        if self.index_of(&id).is_some() {
            return Err(ProxyError::Storage);
        }
        let stamp = self.tick();
        let t = Task {
            id: id.clone(),
            miner: miner.clone(),
            resource_id: resource_id.clone(),
            state: TaskState::Init,
            worker_id: String::new(),
            proof: String::new(),
            error_msg: String::new(),
            created_at: stamp,
            updated_at: stamp,
        };
        self.tasks.push(t);
        Ok(id)
    }

    /// Read-only lookup of the task with id `tid`.
    pub fn fetch(&self, tid: &String) -> (r: Result<Task, ProxyError>)
        ensures
            match r {
                Ok(t) => exists|i: int|
                    0 <= i < self.tasks_view().len()
                        && (#[trigger] self.tasks_view()[i]).id@ == tid@
                        && t == self.tasks_view()[i],
                Err(e) => e == ProxyError::NotFound && !has_task(self.tasks_view(), tid@),
            },
    {
        match self.index_of(tid) {
            Some(i) => Ok(self.tasks[i].dup()),
            None => Err(ProxyError::NotFound),
        }
    }

    /// The atomic claim: among tasks in `Init` select the oldest, move it to
    /// `Running`, stamp `worker_id`, and hand it back. Returns
    /// `NoTaskAvailable` exactly when no `Init` task exists, leaving the
    /// pool untouched.
    pub fn fetch_one_todo(&mut self, worker_id: &String) -> (r: Result<Task, ProxyError>)
        requires
            old(self).wf(),
        ensures
            final(self).wf(),
            final(self).worker_view() == old(self).worker_view(),
            match r {
                Ok(t) => claim_step(old(self).tasks_view(), final(self).tasks_view(), t, worker_id@)
                    && t.wf(),
                Err(e) => {
                    &&& e == ProxyError::NoTaskAvailable
                    &&& final(self).tasks_view() == old(self).tasks_view()
                    &&& no_init(old(self).tasks_view())
                },
            },
    {
        let n = self.tasks.len();
        let mut i: usize = 0;
        while i < n
            invariant
                *self == *old(self),
                old(self).wf(),
                n == self.tasks_view().len(),
                i <= n,
                forall|j: int| 0 <= j < i ==> (#[trigger] self.tasks_view()[j]).state != TaskState::Init,
            decreases n - i,
        {
            if self.tasks[i].state == TaskState::Init {
                let ghost s0 = self.tasks_view();
                let stamp = self.tick();
                let t0 = self.tasks[i].dup();
                let t1 = Task {
                    id: t0.id,
                    miner: t0.miner,
                    resource_id: t0.resource_id,
                    state: TaskState::Running,
                    worker_id: worker_id.clone(),
                    proof: t0.proof,
                    error_msg: t0.error_msg,
                    created_at: t0.created_at,
                    updated_at: stamp,
                };
                let ret = t1.dup();
                self.tasks.set(i, t1);
                proof {
                    assert(is_first_init(s0, i as int));
                    assert(claim_rel(s0[i as int], self.tasks_view()[i as int], worker_id@));
                }
                return Ok(ret);
            }
            i = i + 1;
        }
        Err(ProxyError::NoTaskAvailable)
    }

    /// All tasks currently `Running` and owned by `worker_id`, oldest first:
    /// what a restarted worker uses to resume tracking its in-flight work.
    pub fn fetch_uncomplte(&self, worker_id: &String) -> (r: Vec<Task>)
        ensures
            r@ == owned_running(self.tasks_view(), worker_id@),
    {
        let n = self.tasks.len();
        let mut out: Vec<Task> = Vec::new();
        let mut i: usize = 0;
        while i < n
            invariant
                n == self.tasks_view().len(),
                i <= n,
                out@ == owned_running(self.tasks_view().subrange(0, i as int), worker_id@),
            decreases n - i,
        {
            let ghost pre = self.tasks_view().subrange(0, i as int);
            let ghost cur = self.tasks_view().subrange(0, i as int + 1);
            proof {
                assert(cur.drop_last() =~= pre);
                assert(cur.last() == self.tasks_view()[i as int]);
            }
            if self.tasks[i].state == TaskState::Running && self.tasks[i].worker_id == *worker_id {
                out.push(self.tasks[i].dup());
            }
            i = i + 1;
        }
        proof {
            assert(self.tasks_view().subrange(0, n as int) =~= self.tasks_view());
        }
        out
    }

    /// Filtered read of the queue; each filter is optional and both together
    /// mean both must hold.
    pub fn list_task(&self, worker_id_arg: Option<String>, states: Option<Vec<TaskState>>) -> (r: Vec<Task>)
        ensures
            r@ == select_tasks(self.tasks_view(), opt_str_view(worker_id_arg), opt_states_view(states)),
    {
        let n = self.tasks.len();
        let mut out: Vec<Task> = Vec::new();
        let mut i: usize = 0;
        while i < n
            invariant
                n == self.tasks_view().len(),
                i <= n,
                out@ == select_tasks(self.tasks_view().subrange(0, i as int), opt_str_view(worker_id_arg), opt_states_view(states)),
            decreases n - i,
        {
            let ghost pre = self.tasks_view().subrange(0, i as int);
            let ghost cur = self.tasks_view().subrange(0, i as int + 1);
            proof {
                assert(cur.drop_last() =~= pre);
                assert(cur.last() == self.tasks_view()[i as int]);
            }
            if task_passes(&self.tasks[i], &worker_id_arg, &states) {
                out.push(self.tasks[i].dup());
            }
            i = i + 1;
        }
        proof {
            assert(self.tasks_view().subrange(0, n as int) =~= self.tasks_view());
        }
        out
    }

    /// Record a successful proof: valid only while the task is `Running` and
    /// owned by `worker_id`; moves it to `Completed` and stores `proof`.
    /// A task that was never stored answers `NotFound`; one in another state
    /// or under another owner answers `Conflict` and stays untouched, so a
    /// stale or duplicate report can never overwrite a recorded result.
    pub fn record_proof(&mut self, worker_id: &String, tid: &String, proof: &String) -> (r: Result<(), ProxyError>)
        requires
            old(self).wf(),
        ensures
            final(self).wf(),
            final(self).worker_view() == old(self).worker_view(),
            match r {
                Ok(()) => report_step(old(self).tasks_view(), final(self).tasks_view(), tid@, worker_id@, TaskState::Completed, proof@),
                Err(e) => {
                    &&& final(self).tasks_view() == old(self).tasks_view()
                    &&& (e == ProxyError::NotFound || e == ProxyError::Conflict)
                    &&& (e == ProxyError::NotFound <==> !has_task(old(self).tasks_view(), tid@))
                    &&& e == ProxyError::Conflict ==> exists|i: int|
                        0 <= i < old(self).tasks_view().len()
                            && (#[trigger] old(self).tasks_view()[i]).id@ == tid@
                            && !(old(self).tasks_view()[i].state == TaskState::Running
                                && old(self).tasks_view()[i].worker_id@ == worker_id@)
                },
            },
    {
        self.report(worker_id, tid, proof, true)
    }

    /// Record a failed computation: same ownership precondition as
    /// `record_proof`; moves the task to `Error` and stores `err_msg`.
    pub fn record_error(&mut self, worker_id: &String, tid: &String, err_msg: &String) -> (r: Result<(), ProxyError>)
        requires
            old(self).wf(),
        ensures
            final(self).wf(),
            final(self).worker_view() == old(self).worker_view(),
            match r {
                Ok(()) => report_step(old(self).tasks_view(), final(self).tasks_view(), tid@, worker_id@, TaskState::Error, err_msg@),
                Err(e) => {
                    &&& final(self).tasks_view() == old(self).tasks_view()
                    &&& (e == ProxyError::NotFound || e == ProxyError::Conflict)
                    &&& (e == ProxyError::NotFound <==> !has_task(old(self).tasks_view(), tid@))
                    &&& e == ProxyError::Conflict ==> exists|i: int|
                        0 <= i < old(self).tasks_view().len()
                            && (#[trigger] old(self).tasks_view()[i]).id@ == tid@
                            && !(old(self).tasks_view()[i].state == TaskState::Running
                                && old(self).tasks_view()[i].worker_id@ == worker_id@)
                },
            },
    {
        self.report(worker_id, tid, err_msg, false)
    }

    /// The shared body of the two report operations; `success` picks the
    /// terminal state.
    fn report(&mut self, worker_id: &String, tid: &String, payload: &String, success: bool) -> (r: Result<(), ProxyError>)
        requires
            old(self).wf(),
        ensures
            final(self).wf(),
            final(self).worker_view() == old(self).worker_view(),
            ({
                let st = if success { TaskState::Completed } else { TaskState::Error };
                match r {
                    Ok(()) => report_step(old(self).tasks_view(), final(self).tasks_view(), tid@, worker_id@, st, payload@),
                    Err(e) => {
                        &&& final(self).tasks_view() == old(self).tasks_view()
                        &&& (e == ProxyError::NotFound || e == ProxyError::Conflict)
                        &&& (e == ProxyError::NotFound <==> !has_task(old(self).tasks_view(), tid@))
                        &&& e == ProxyError::Conflict ==> exists|i: int|
                            0 <= i < old(self).tasks_view().len()
                                && (#[trigger] old(self).tasks_view()[i]).id@ == tid@
                                && !(old(self).tasks_view()[i].state == TaskState::Running
                                    && old(self).tasks_view()[i].worker_id@ == worker_id@)
                    },
                }
            }),
    {
        let i = match self.index_of(tid) {
            Some(i) => i,
            None => {
                return Err(ProxyError::NotFound);
            },
        };
        let owned = self.tasks[i].state == TaskState::Running && self.tasks[i].worker_id == *worker_id;
        if !owned {
            proof {
                assert(has_task(self.tasks_view(), tid@));
            }
            return Err(ProxyError::Conflict);
        }
        let ghost s0 = self.tasks_view();
        let stamp = self.tick();
        let t0 = self.tasks[i].dup();
        let t1 = Task {
            id: t0.id,
            miner: t0.miner,
            resource_id: t0.resource_id,
            state: if success { TaskState::Completed } else { TaskState::Error },
            worker_id: t0.worker_id,
            proof: if success { payload.clone() } else { t0.proof },
            error_msg: if success { t0.error_msg } else { payload.clone() },
            created_at: t0.created_at,
            updated_at: stamp,
        };
        self.tasks.set(i, t1);
        proof {
            let st = if success { TaskState::Completed } else { TaskState::Error };
            assert(report_rel(s0[i as int], self.tasks_view()[i as int], st, payload@));
        }
        Ok(())
    }

    /// The worker identity: established once with a fresh id and then
    /// persisted, so a restarted worker finds its own `Running` tasks again.
    pub fn get_worker_id(&mut self) -> (r: String)
        ensures
            final(self).tasks_view() == old(self).tasks_view(),
            final(self).clock_spec() == old(self).clock_spec(),
            final(self).worker_view() matches Some(w) && w@ == r@,
            old(self).worker_view() matches Some(w) ==> w@ == r@,
    {
        match &self.worker {
            Some(w) => w.clone(),
            None => {
                let id = fresh_uuid();
                self.worker = Some(id.clone());
                id
            },
        }
    }
}

/// The view of an optional state filter.
pub open spec fn opt_states_view(o: Option<Vec<TaskState>>) -> Option<Seq<TaskState>> {
    match o {
        Some(v) => Some(v@),
        None => None,
    }
}

/// Whether `t` passes both filters, decided executably.
fn task_passes(t: &Task, w: &Option<String>, sts: &Option<Vec<TaskState>>) -> (b: bool)
    ensures
        b == selected(*t, opt_str_view(*w), opt_states_view(*sts)),
{
    let w_ok = match w {
        Some(ws) => t.worker_id == *ws,
        None => true,
    };
    let st_ok = match sts {
        Some(ss) => states_contain(ss, t.state),
        None => true,
    };
    w_ok && st_ok
}

/// Whether `v` holds the state `st`.
fn states_contain(v: &Vec<TaskState>, st: TaskState) -> (b: bool)
    ensures
        b == v@.contains(st),
{
    let n = v.len();
    let mut i: usize = 0;
    while i < n
        invariant
            n == v@.len(),
            i <= n,
            forall|j: int| 0 <= j < i ==> v@[j] != st,
        decreases n - i,
    {
        if v[i] == st {
            return true;
        }
        i = i + 1;
    }
    false
}

} // verus!
