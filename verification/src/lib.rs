//! A task-distribution proxy for expensive, GPU-bound proof computations.
//!
//! Callers submit proof jobs; a pool of workers, local or remote, pulls
//! jobs, computes them through an external proving library, and reports
//! results back. This crate is the coordination core: the task state
//! machine and its claim protocol (`pool`), the out-of-line blob store the
//! jobs' inputs live in (`resource`), the framed compute-input envelope
//! (`c2`), the RPC adaptor and error-code contract (`rpc`), and the worker
//! loop's decisions (`worker`). The guarantees the pieces give together —
//! at most one claim per task, FIFO claim order, terminal results that
//! never change, recovery after a worker restart — are stated and proved
//! in `laws`.

pub mod c2;
pub mod config;
pub mod errors;
pub mod laws;
pub mod outside;
pub mod pool;
pub mod resource;
pub mod rpc;
pub mod task;
pub mod util;
pub mod worker;
