//! The worker coordinator's decisions.
//!
//! A worker drives a pull-compute-report loop: poll for a claim, resolve
//! the claimed task's input, run the external prover, report the outcome.
//! The polling, sleeping, transport and the prover call itself are outside
//! work performed by the surrounding process; every decision between two of
//! those steps is taken here, as one verified transition from the current
//! phase and the event that arrived to the next phase and the action to
//! perform. Faults are never fatal to the loop: every phase answers every
//! event, a failed report is retried a bounded number of times, and an
//! abandoned task stays `Running`, recoverable through `fetch_uncomplte`.

use vstd::prelude::*;

use crate::task::Task;

verus! {

/// What the surrounding process observed since the last decision.
pub enum WorkerEvent {
    /// A claim succeeded and handed a task over.
    Claimed(Task),
    /// The queue held no claimable task.
    NoTask,
    /// The pool answered a transient fault.
    PoolFault,
    /// The claimed task's input blob was resolved.
    ResourceOk(Vec<u8>),
    /// The input blob could not be resolved; the message describes why.
    ResourceFault(String),
    /// The external prover finished with this proof.
    ComputeOk(String),
    /// The external prover failed; the message describes why.
    ComputeFault(String),
    /// The pending report was accepted.
    ReportOk,
    /// The pending report failed transiently.
    ReportFault,
}

/// What the surrounding process must do next.
pub enum WorkerAction {
    /// Call the claim operation.
    Poll,
    /// Wait a little, then call the claim operation.
    Backoff,
    /// Resolve this resource id through the resource store.
    FetchResource(String),
    /// Run the external prover on this envelope.
    Compute(Vec<u8>),
    /// Report the given proof under the given task id.
    ReportProof(String, String),
    /// Report the given failure message under the given task id.
    ReportError(String, String),
    /// Stop reporting on the given task id; it stays `Running` for recovery.
    Abandon(String),
}

/// Where the coordinator stands in the loop.
pub enum WorkerPhase {
    /// No claim held.
    Idle,
    /// Holding this claim, resolving its input.
    Fetching(Task),
    /// Holding this claim, computing.
    Computing(Task),
    /// Holding this claim, reporting this proof.
    ReportingProof(Task, String),
    /// Holding this claim, reporting this failure message.
    ReportingError(Task, String),
}

/// One worker's loop state: its persistent identity, the configured report
/// retry bound, the retries still left for the pending report, and the
/// phase.
pub struct Coordinator {
    pub worker_id: String,
    pub report_retries: u8,
    pub retries_left: u8,
    pub phase: WorkerPhase,
}

/// The whole decision table: the coordinator after the event, and the
/// action to perform. Every phase answers every event; an event that does
/// not belong to the phase changes nothing and backs off.
pub open spec fn next_spec(c: Coordinator, ev: WorkerEvent) -> (Coordinator, WorkerAction) {
    match (c.phase, ev) {
        (WorkerPhase::Idle, WorkerEvent::Claimed(t)) => (
            Coordinator {
                worker_id: c.worker_id,
                report_retries: c.report_retries,
                retries_left: c.retries_left,
                phase: WorkerPhase::Fetching(t),
            },
            WorkerAction::FetchResource(t.resource_id),
        ),
        (WorkerPhase::Idle, _) => (c, WorkerAction::Backoff),
        (WorkerPhase::Fetching(t), WorkerEvent::ResourceOk(b)) => (
            Coordinator {
                worker_id: c.worker_id,
                report_retries: c.report_retries,
                retries_left: c.retries_left,
                phase: WorkerPhase::Computing(t),
            },
            WorkerAction::Compute(b),
        ),
        (WorkerPhase::Fetching(t), WorkerEvent::ResourceFault(m)) => (
            Coordinator {
                worker_id: c.worker_id,
                report_retries: c.report_retries,
                retries_left: c.report_retries,
                phase: WorkerPhase::ReportingError(t, m),
            },
            WorkerAction::ReportError(t.id, m),
        ),
        (WorkerPhase::Fetching(_), _) => (c, WorkerAction::Backoff),
        (WorkerPhase::Computing(t), WorkerEvent::ComputeOk(p)) => (
            Coordinator {
                worker_id: c.worker_id,
                report_retries: c.report_retries,
                retries_left: c.report_retries,
                phase: WorkerPhase::ReportingProof(t, p),
            },
            WorkerAction::ReportProof(t.id, p),
        ),
        (WorkerPhase::Computing(t), WorkerEvent::ComputeFault(m)) => (
            Coordinator {
                worker_id: c.worker_id,
                report_retries: c.report_retries,
                retries_left: c.report_retries,
                phase: WorkerPhase::ReportingError(t, m),
            },
            WorkerAction::ReportError(t.id, m),
        ),
        (WorkerPhase::Computing(_), _) => (c, WorkerAction::Backoff),
        (WorkerPhase::ReportingProof(_, _), WorkerEvent::ReportOk) => (
            Coordinator {
                worker_id: c.worker_id,
                report_retries: c.report_retries,
                retries_left: c.retries_left,
                phase: WorkerPhase::Idle,
            },
            WorkerAction::Poll,
        ),
        (WorkerPhase::ReportingProof(t, p), WorkerEvent::ReportFault) => if c.retries_left > 0 {
            (
                Coordinator {
                    worker_id: c.worker_id,
                    report_retries: c.report_retries,
                    retries_left: (c.retries_left - 1) as u8,
                    phase: WorkerPhase::ReportingProof(t, p),
                },
                WorkerAction::ReportProof(t.id, p),
            )
        } else {
            (
                Coordinator {
                    worker_id: c.worker_id,
                    report_retries: c.report_retries,
                    retries_left: c.retries_left,
                    phase: WorkerPhase::Idle,
                },
                WorkerAction::Abandon(t.id),
            )
        },
        (WorkerPhase::ReportingProof(_, _), _) => (c, WorkerAction::Backoff),
        (WorkerPhase::ReportingError(_, _), WorkerEvent::ReportOk) => (
            Coordinator {
                worker_id: c.worker_id,
                report_retries: c.report_retries,
                retries_left: c.retries_left,
                phase: WorkerPhase::Idle,
            },
            WorkerAction::Poll,
        ),
        (WorkerPhase::ReportingError(t, m), WorkerEvent::ReportFault) => if c.retries_left > 0 {
            (
                Coordinator {
                    worker_id: c.worker_id,
                    report_retries: c.report_retries,
                    retries_left: (c.retries_left - 1) as u8,
                    phase: WorkerPhase::ReportingError(t, m),
                },
                WorkerAction::ReportError(t.id, m),
            )
        } else {
            (
                Coordinator {
                    worker_id: c.worker_id,
                    report_retries: c.report_retries,
                    retries_left: c.retries_left,
                    phase: WorkerPhase::Idle,
                },
                WorkerAction::Abandon(t.id),
            )
        },
        (WorkerPhase::ReportingError(_, _), _) => (c, WorkerAction::Backoff),
    }
}

impl Coordinator {
    /// A fresh coordinator for worker `worker_id`: idle, with
    /// `report_retries` retries allowed per report.
    pub fn new(worker_id: String, report_retries: u8) -> (c: Coordinator)
        ensures
            c.worker_id == worker_id,
            c.report_retries == report_retries,
            c.phase matches WorkerPhase::Idle,
    {
        Coordinator { worker_id, report_retries, retries_left: report_retries, phase: WorkerPhase::Idle }
    }

    /// An explicit copy of the phase whose result is known to equal it.
    fn dup_phase(&self) -> (p: WorkerPhase)
        ensures
            p == self.phase,
    {
        match &self.phase {
            WorkerPhase::Idle => WorkerPhase::Idle,
            WorkerPhase::Fetching(t) => WorkerPhase::Fetching(t.dup()),
            WorkerPhase::Computing(t) => WorkerPhase::Computing(t.dup()),
            WorkerPhase::ReportingProof(t, p) => WorkerPhase::ReportingProof(t.dup(), p.clone()),
            WorkerPhase::ReportingError(t, m) => WorkerPhase::ReportingError(t.dup(), m.clone()),
        }
    }

    /// Take one decision: exactly the step `next_spec` describes.
    pub fn step(&mut self, ev: WorkerEvent) -> (a: WorkerAction)
        ensures
            *final(self) == next_spec(*old(self), ev).0,
            a == next_spec(*old(self), ev).1,
    {
        let ph = self.dup_phase();
        match (ph, ev) {
            (WorkerPhase::Idle, WorkerEvent::Claimed(t)) => {
                let rid = t.resource_id.clone();
                self.phase = WorkerPhase::Fetching(t);
                WorkerAction::FetchResource(rid)
            },
            (WorkerPhase::Idle, _) => WorkerAction::Backoff,
            (WorkerPhase::Fetching(t), WorkerEvent::ResourceOk(b)) => {
                self.phase = WorkerPhase::Computing(t);
                WorkerAction::Compute(b)
            },
            (WorkerPhase::Fetching(t), WorkerEvent::ResourceFault(m)) => {
                let tid = t.id.clone();
                let msg = m.clone();
                self.retries_left = self.report_retries;
                self.phase = WorkerPhase::ReportingError(t, m);
                WorkerAction::ReportError(tid, msg)
            },
            (WorkerPhase::Fetching(_), _) => WorkerAction::Backoff,
            (WorkerPhase::Computing(t), WorkerEvent::ComputeOk(p)) => {
                let tid = t.id.clone();
                let proof = p.clone();
                self.retries_left = self.report_retries;
                self.phase = WorkerPhase::ReportingProof(t, p);
                WorkerAction::ReportProof(tid, proof)
            },
            (WorkerPhase::Computing(t), WorkerEvent::ComputeFault(m)) => {
                let tid = t.id.clone();
                let msg = m.clone();
                self.retries_left = self.report_retries;
                self.phase = WorkerPhase::ReportingError(t, m);
                WorkerAction::ReportError(tid, msg)
            },
            (WorkerPhase::Computing(_), _) => WorkerAction::Backoff,
            (WorkerPhase::ReportingProof(_, _), WorkerEvent::ReportOk) => {
                self.phase = WorkerPhase::Idle;
                WorkerAction::Poll
            },
            (WorkerPhase::ReportingProof(t, p), WorkerEvent::ReportFault) => {
                if self.retries_left > 0 {
                    self.retries_left = self.retries_left - 1;
                    let tid = t.id.clone();
                    let proof = p.clone();
                    self.phase = WorkerPhase::ReportingProof(t, p);
                    WorkerAction::ReportProof(tid, proof)
                } else {
                    let tid = t.id.clone();
                    self.phase = WorkerPhase::Idle;
                    WorkerAction::Abandon(tid)
                }
            },
            (WorkerPhase::ReportingProof(_, _), _) => WorkerAction::Backoff,
            (WorkerPhase::ReportingError(_, _), WorkerEvent::ReportOk) => {
                self.phase = WorkerPhase::Idle;
                WorkerAction::Poll
            },
            (WorkerPhase::ReportingError(t, m), WorkerEvent::ReportFault) => {
                if self.retries_left > 0 {
                    self.retries_left = self.retries_left - 1;
                    let tid = t.id.clone();
                    let msg = m.clone();
                    self.phase = WorkerPhase::ReportingError(t, m);
                    WorkerAction::ReportError(tid, msg)
                } else {
                    let tid = t.id.clone();
                    self.phase = WorkerPhase::Idle;
                    WorkerAction::Abandon(tid)
                }
            },
            (WorkerPhase::ReportingError(_, _), _) => WorkerAction::Backoff,
        }
    }
}

/// A pending report ends: each failed attempt either spends one retry or
/// abandons the task, so a report is attempted at most `report_retries + 1`
/// times before the coordinator goes back to polling.
pub proof fn lemma_report_retries_spent(c: Coordinator)
    requires
        c.phase matches WorkerPhase::ReportingProof(_, _)
            || c.phase matches WorkerPhase::ReportingError(_, _),
    ensures
        c.retries_left > 0 ==> next_spec(c, WorkerEvent::ReportFault).0.retries_left
            == c.retries_left - 1 && next_spec(c, WorkerEvent::ReportFault).0.phase == c.phase,
        c.retries_left == 0 ==> (next_spec(c, WorkerEvent::ReportFault).0.phase
            matches WorkerPhase::Idle) && (next_spec(c, WorkerEvent::ReportFault).1
            matches WorkerAction::Abandon(_)),
{
}

} // verus!
