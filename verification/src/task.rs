//! The task record and its lifecycle state machine.
//!
//! A task moves `Init -> Running` when a worker claims it, and
//! `Running -> Completed` or `Running -> Error` when the worker reports a
//! result. `Completed` and `Error` are terminal: no later transition is
//! accepted. The spec functions here state the shape of each transition and
//! the record's well-formedness; the pool's operations promise them.

use vstd::prelude::*;

verus! {

/// The lifecycle states of a task.
#[derive(Clone, Copy, Debug, PartialEq, Eq, Structural)]
pub enum TaskState {
    Init,
    Running,
    Completed,
    Error,
}

/// One unit of proof-computation work, from submission to terminal result.
#[derive(Debug)]
pub struct Task {
    /// Unique identifier, generated at creation, immutable.
    pub id: String,
    /// Address of the logical owner of the job, set at creation, immutable.
    pub miner: String,
    /// Reference into the resource store for the input blob; immutable.
    pub resource_id: String,
    /// Current lifecycle state.
    pub state: TaskState,
    /// The worker that currently holds or last held the claim; empty until
    /// the first claim.
    pub worker_id: String,
    /// Result payload, set once on the transition to `Completed`.
    pub proof: String,
    /// Failure payload, set once on the transition to `Error`.
    pub error_msg: String,
    /// Stamp taken from the pool's clock at creation.
    pub created_at: u64,
    /// Stamp taken from the pool's clock; advances on every transition.
    pub updated_at: u64,
}

impl Task {
    /// Result payloads are tied to the state: both are empty before a
    /// terminal state, and the one that does not match the terminal state
    /// stays empty. A task that was never claimed names no worker.
    pub open spec fn wf(self) -> bool {
        &&& (self.state == TaskState::Init || self.state == TaskState::Running)
            ==> self.proof@.len() == 0 && self.error_msg@.len() == 0
        &&& self.state == TaskState::Completed ==> self.error_msg@.len() == 0
        &&& self.state == TaskState::Error ==> self.proof@.len() == 0
        &&& self.state == TaskState::Init ==> self.worker_id@.len() == 0
        &&& self.created_at <= self.updated_at
    }

    /// An explicit copy whose result is known to equal the original.
    pub fn dup(&self) -> (r: Task)
        ensures
            r == *self,
    {
        Task {
            id: self.id.clone(),
            miner: self.miner.clone(),
            resource_id: self.resource_id.clone(),
            state: self.state,
            worker_id: self.worker_id.clone(),
            proof: self.proof.clone(),
            error_msg: self.error_msg.clone(),
            created_at: self.created_at,
            updated_at: self.updated_at,
        }
    }
}

/// The fields that no transition may touch agree between `t0` and `t1`.
pub open spec fn same_identity(t0: Task, t1: Task) -> bool {
    &&& t1.id@ == t0.id@
    &&& t1.miner@ == t0.miner@
    &&& t1.resource_id@ == t0.resource_id@
    &&& t1.created_at == t0.created_at
}

/// `t1` is `t0` claimed by worker `w`: state moved to `Running`, the worker
/// stamped, the result payloads untouched, and the update stamp advanced.
pub open spec fn claim_rel(t0: Task, t1: Task, w: Seq<char>) -> bool {
    &&& same_identity(t0, t1)
    &&& t1.state == TaskState::Running
    &&& t1.worker_id@ == w
    &&& t1.proof@ == t0.proof@
    &&& t1.error_msg@ == t0.error_msg@
    &&& t1.updated_at >= t0.updated_at
}

/// `t1` is `t0` brought to the terminal state `st` (`Completed` or `Error`)
/// with payload `payload` stored in the matching result field, the claim
/// untouched, and the update stamp advanced.
pub open spec fn report_rel(t0: Task, t1: Task, st: TaskState, payload: Seq<char>) -> bool {
    &&& same_identity(t0, t1)
    &&& t1.worker_id@ == t0.worker_id@
    &&& t1.state == st
    &&& st == TaskState::Completed ==> t1.proof@ == payload && t1.error_msg@ == t0.error_msg@
    &&& st == TaskState::Error ==> t1.error_msg@ == payload && t1.proof@ == t0.proof@
    &&& t1.updated_at >= t0.updated_at
}

/// Every task in `s` is well-formed.
pub open spec fn all_wf(s: Seq<Task>) -> bool {
    forall|i: int| 0 <= i < s.len() ==> (#[trigger] s[i]).wf()
}

/// No two tasks in `s` share an id.
pub open spec fn distinct_ids(s: Seq<Task>) -> bool {
    forall|i: int, j: int| 0 <= i < j < s.len() ==> s[i].id@ != s[j].id@
}

/// Tasks stand in creation order: stamps never decrease along the sequence.
pub open spec fn created_ordered(s: Seq<Task>) -> bool {
    forall|i: int, j: int| 0 <= i <= j < s.len() ==> s[i].created_at <= s[j].created_at
}

/// Some task in `s` carries the id `id`.
pub open spec fn has_task(s: Seq<Task>, id: Seq<char>) -> bool {
    exists|i: int| 0 <= i < s.len() && (#[trigger] s[i]).id@ == id
}

/// `s[i]` is the oldest task still in `Init`: everything before it has
/// already been claimed or finished.
pub open spec fn is_first_init(s: Seq<Task>, i: int) -> bool {
    &&& 0 <= i < s.len()
    &&& s[i].state == TaskState::Init
    &&& forall|j: int| 0 <= j < i ==> (#[trigger] s[j]).state != TaskState::Init
}

/// No task in `s` is in `Init`: the queue holds no claimable work.
pub open spec fn no_init(s: Seq<Task>) -> bool {
    forall|i: int| 0 <= i < s.len() ==> (#[trigger] s[i]).state != TaskState::Init
}

/// The whole effect of one successful claim: the oldest `Init` task of `s0`
/// moved to `Running` under worker `w`, every other task untouched, and `t`
/// is the claimed record as the caller received it.
pub open spec fn claim_step(s0: Seq<Task>, s1: Seq<Task>, t: Task, w: Seq<char>) -> bool {
    exists|i: int|
        {
            &&& #[trigger] is_first_init(s0, i)
            &&& s1.len() == s0.len()
            &&& claim_rel(s0[i], s1[i], w)
            &&& t == s1[i]
            &&& forall|j: int| 0 <= j < s0.len() && j != i ==> s1[j] == s0[j]
        }
}

/// The oldest `Init` position is unique.
pub proof fn lemma_first_init_unique(s: Seq<Task>, i: int, j: int)
    requires
        is_first_init(s, i),
        is_first_init(s, j),
    ensures
        i == j,
{
    if i < j {
        assert(s[i].state != TaskState::Init);
    } else if j < i {
        assert(s[j].state != TaskState::Init);
    }
}

} // verus!
