//! The RPC surface: the server-side adaptor bound to a task pool and a
//! resource store, and the error-code mapping the wire uses.
//!
//! The same method set is served to local and remote callers; a remote
//! worker talks to a client adaptor that forwards each call over the wire
//! to this one. Every method here is a straight pass-through to the pool or
//! the store, so the two adaptors stay substitutable. Error kinds map to
//! distinct wire codes and back without losing the distinction, so a
//! client can tell "empty queue" from a hard failure.

use vstd::prelude::*;

use crate::c2::{c2_encode, C2};
use crate::errors::ProxyError;
use crate::outside::{json_decodes, json_is_valid, miner_acceptable, miner_ok};
use crate::pool::{add_step, opt_states_view, opt_str_view, owned_running, report_step, select_tasks, TaskPool};
use crate::resource::{has_resource, store_step, Resource};
use crate::task::{claim_step, has_task, no_init, Task, TaskState};

verus! {

/// The wire code of each error kind.
pub open spec fn error_code_spec(e: ProxyError) -> int {
    match e {
        ProxyError::NotFound => -32001,
        ProxyError::Conflict => -32002,
        ProxyError::NoTaskAvailable => -32003,
        ProxyError::Storage => -32603,
        ProxyError::InvalidParams => -32602,
    }
}

/// The error kind a wire code names, if any.
pub open spec fn error_of_code_spec(c: int) -> Option<ProxyError> {
    if c == -32001 {
        Some(ProxyError::NotFound)
    } else if c == -32002 {
        Some(ProxyError::Conflict)
    } else if c == -32003 {
        Some(ProxyError::NoTaskAvailable)
    } else if c == -32603 {
        Some(ProxyError::Storage)
    } else if c == -32602 {
        Some(ProxyError::InvalidParams)
    } else {
        None
    }
}

/// Translate an error kind to its wire code.
pub fn error_code(e: ProxyError) -> (c: i64)
    ensures
        c == error_code_spec(e),
{
    match e {
        ProxyError::NotFound => -32001,
        ProxyError::Conflict => -32002,
        ProxyError::NoTaskAvailable => -32003,
        ProxyError::Storage => -32603,
        ProxyError::InvalidParams => -32602,
    }
}

/// Translate a wire code back to the error kind it names.
pub fn error_of_code(c: i64) -> (r: Option<ProxyError>)
    ensures
        r == error_of_code_spec(c as int),
{
    if c == -32001 {
        Some(ProxyError::NotFound)
    } else if c == -32002 {
        Some(ProxyError::Conflict)
    } else if c == -32003 {
        Some(ProxyError::NoTaskAvailable)
    } else if c == -32603 {
        Some(ProxyError::Storage)
    } else if c == -32602 {
        Some(ProxyError::InvalidParams)
    } else {
        None
    }
}

/// The translation loses no distinction: every kind comes back from its
/// own code, so no two kinds share one.
pub proof fn lemma_error_code_round_trip(e: ProxyError)
    ensures
        error_of_code_spec(error_code_spec(e)) == Some(e),
{
}

/// The server adaptor: the RPC method set bound directly to a task pool
/// and a resource backend.
pub struct ProofImpl<R: Resource> {
    pub pool: TaskPool,
    pub resource: R,
}

impl<R: Resource> ProofImpl<R> {
    /// Both halves are in their steady state.
    pub open spec fn wf(self) -> bool {
        self.pool.wf() && self.resource.inv()
    }

    pub fn new(pool: TaskPool, resource: R) -> (r: ProofImpl<R>)
        requires
            pool.wf(),
            resource.inv(),
        ensures
            r.wf(),
            r.pool == pool,
            r.resource == resource,
    {
        ProofImpl { pool, resource }
    }

    /// Submit one compute job: reject inputs that decode to no JSON
    /// document or name no valid miner address before any mutation, then
    /// frame the envelope, persist it, and queue a task in `Init` that
    /// points at it.
    pub fn submit_c2_task(
        &mut self,
        phase1_output: Vec<u8>,
        miner: String,
        prover_id: [u8; 32],
        sector_id: u64,
    ) -> (r: Result<String, ProxyError>)
        requires
            old(self).wf(),
        ensures
            final(self).wf(),
            final(self).pool.worker_view() == old(self).pool.worker_view(),
            match r {
                Ok(tid) => {
                    &&& json_decodes(phase1_output@)
                    &&& miner_ok(miner@)
                    &&& exists|rid: Seq<char>|
                        {
                            &&& #[trigger] store_step(
                                old(self).resource.resources(),
                                final(self).resource.resources(),
                                rid,
                                c2_encode(prover_id@, sector_id, phase1_output@),
                            )
                            &&& add_step(
                                old(self).pool.tasks_view(),
                                final(self).pool.tasks_view(),
                                tid@,
                                miner@,
                                rid,
                            )
                        }
                },
                Err(e) => {
                    &&& final(self).pool.tasks_view() == old(self).pool.tasks_view()
                    &&& (e == ProxyError::InvalidParams || e == ProxyError::Storage)
                    &&& (e == ProxyError::InvalidParams <==> !json_decodes(phase1_output@)
                        || !miner_ok(miner@))
                    &&& e == ProxyError::InvalidParams ==> final(self).resource.resources()
                        == old(self).resource.resources()
                    &&& e == ProxyError::Storage ==> (final(self).resource.resources()
                        == old(self).resource.resources() || exists|rid: Seq<char>|
                        #[trigger] store_step(
                            old(self).resource.resources(),
                            final(self).resource.resources(),
                            rid,
                            c2_encode(prover_id@, sector_id, phase1_output@),
                        ))
                },
            },
    {
        if !json_is_valid(&phase1_output) {
            return Err(ProxyError::InvalidParams);
        }
        if !miner_acceptable(&miner) {
            return Err(ProxyError::InvalidParams);
        }
        let c2 = C2 { prove_id: prover_id, sector_id: sector_id, phase1_output: phase1_output };
        let bytes = c2.encode();
        let rid = match self.resource.store_resource_info(bytes) {
            Ok(rid) => rid,
            Err(e) => {
                return Err(e);
            },
        };
        match self.pool.add_task(&miner, &rid) {
            Ok(tid) => Ok(tid),
            Err(e) => Err(e),
        }
    }

    /// Read-only lookup of one task.
    pub fn get_task(&self, id: &String) -> (r: Result<Task, ProxyError>)
        ensures
            match r {
                Ok(t) => exists|i: int|
                    0 <= i < self.pool.tasks_view().len()
                        && (#[trigger] self.pool.tasks_view()[i]).id@ == id@
                        && t == self.pool.tasks_view()[i],
                Err(e) => e == ProxyError::NotFound && !has_task(self.pool.tasks_view(), id@),
            },
    {
        self.pool.fetch(id)
    }

    /// The atomic claim, passed straight to the pool.
    pub fn fetch_todo(&mut self, worker_id_arg: &String) -> (r: Result<Task, ProxyError>)
        requires
            old(self).wf(),
        ensures
            final(self).wf(),
            final(self).resource.resources() == old(self).resource.resources(),
            final(self).pool.worker_view() == old(self).pool.worker_view(),
            match r {
                Ok(t) => claim_step(
                    old(self).pool.tasks_view(),
                    final(self).pool.tasks_view(),
                    t,
                    worker_id_arg@,
                ) && t.wf(),
                Err(e) => {
                    &&& e == ProxyError::NoTaskAvailable
                    &&& final(self).pool.tasks_view() == old(self).pool.tasks_view()
                    &&& no_init(old(self).pool.tasks_view())
                },
            },
    {
        self.pool.fetch_one_todo(worker_id_arg)
    }

    /// A worker's in-flight tasks, for recovery after a restart.
    pub fn fetch_uncomplte(&self, worker_id_arg: &String) -> (r: Result<Vec<Task>, ProxyError>)
        ensures
            r matches Ok(v) && v@ == owned_running(self.pool.tasks_view(), worker_id_arg@),
    {
        Ok(self.pool.fetch_uncomplte(worker_id_arg))
    }

    /// Look one stored blob up by id.
    pub fn get_resource_info(&self, resource_id_arg: &String) -> (r: Result<Vec<u8>, ProxyError>)
        requires
            self.wf(),
        ensures
            match r {
                Ok(b) => exists|i: int|
                    0 <= i < self.resource.resources().len()
                        && (#[trigger] self.resource.resources()[i]).id@ == resource_id_arg@
                        && b@ == self.resource.resources()[i].data@,
                Err(e) => e == ProxyError::NotFound
                    && !has_resource(self.resource.resources(), resource_id_arg@),
            },
    {
        self.resource.get_resource_info(resource_id_arg)
    }

    /// Report a computed proof; answers `true` exactly on success.
    pub fn record_proof(&mut self, worker_id_arg: &String, tid: &String, proof: &String) -> (r:
        Result<bool, ProxyError>)
        requires
            old(self).wf(),
        ensures
            final(self).wf(),
            final(self).resource.resources() == old(self).resource.resources(),
            final(self).pool.worker_view() == old(self).pool.worker_view(),
            match r {
                Ok(b) => b && report_step(
                    old(self).pool.tasks_view(),
                    final(self).pool.tasks_view(),
                    tid@,
                    worker_id_arg@,
                    TaskState::Completed,
                    proof@,
                ),
                Err(e) => {
                    &&& final(self).pool.tasks_view() == old(self).pool.tasks_view()
                    &&& (e == ProxyError::NotFound || e == ProxyError::Conflict)
                    &&& (e == ProxyError::NotFound <==> !has_task(
                        old(self).pool.tasks_view(),
                        tid@,
                    ))
                    &&& e == ProxyError::Conflict ==> exists|i: int|
                        0 <= i < old(self).pool.tasks_view().len()
                            && (#[trigger] old(self).pool.tasks_view()[i]).id@ == tid@
                            && !(old(self).pool.tasks_view()[i].state == TaskState::Running
                                && old(self).pool.tasks_view()[i].worker_id@ == worker_id_arg@)
                },
            },
    {
        match self.pool.record_proof(worker_id_arg, tid, proof) {
            Ok(()) => Ok(true),
            Err(e) => Err(e),
        }
    }

    /// Report a failed computation; answers `true` exactly on success.
    pub fn record_error(&mut self, worker_id_arg: &String, tid: &String, err_msg: &String) -> (r:
        Result<bool, ProxyError>)
        requires
            old(self).wf(),
        ensures
            final(self).wf(),
            final(self).resource.resources() == old(self).resource.resources(),
            final(self).pool.worker_view() == old(self).pool.worker_view(),
            match r {
                Ok(b) => b && report_step(
                    old(self).pool.tasks_view(),
                    final(self).pool.tasks_view(),
                    tid@,
                    worker_id_arg@,
                    TaskState::Error,
                    err_msg@,
                ),
                Err(e) => {
                    &&& final(self).pool.tasks_view() == old(self).pool.tasks_view()
                    &&& (e == ProxyError::NotFound || e == ProxyError::Conflict)
                    &&& (e == ProxyError::NotFound <==> !has_task(
                        old(self).pool.tasks_view(),
                        tid@,
                    ))
                    &&& e == ProxyError::Conflict ==> exists|i: int|
                        0 <= i < old(self).pool.tasks_view().len()
                            && (#[trigger] old(self).pool.tasks_view()[i]).id@ == tid@
                            && !(old(self).pool.tasks_view()[i].state == TaskState::Running
                                && old(self).pool.tasks_view()[i].worker_id@ == worker_id_arg@)
                },
            },
    {
        match self.pool.record_error(worker_id_arg, tid, err_msg) {
            Ok(()) => Ok(true),
            Err(e) => Err(e),
        }
    }

    /// Filtered read of the queue.
    pub fn list_task(&self, worker_id_arg: Option<String>, states: Option<Vec<TaskState>>) -> (r:
        Result<Vec<Task>, ProxyError>)
        ensures
            r matches Ok(v) && v@ == select_tasks(
                self.pool.tasks_view(),
                opt_str_view(worker_id_arg),
                opt_states_view(states),
            ),
    {
        Ok(self.pool.list_task(worker_id_arg, states))
    }
}

} // verus!
