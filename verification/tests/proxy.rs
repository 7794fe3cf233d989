use gpuproxy::c2::C2;
use gpuproxy::config::{ClientConfig, ServiceConfig};
use gpuproxy::errors::ProxyError;
use gpuproxy::pool::TaskPool;
use gpuproxy::resource::{FileResource, MemResource, Resource};
use gpuproxy::rpc::{error_code, error_of_code, ProofImpl};
use gpuproxy::task::TaskState;
use gpuproxy::worker::{Coordinator, WorkerAction, WorkerEvent, WorkerPhase};

#[test]
fn scenario_submit_claim_report() {
    let mut pool = TaskPool::new();
    let mut store = MemResource::new();

    let rid = store.store_resource_info(vec![0x01, 0x02]).unwrap();
    let t1 = pool
        .add_task(&"f01234".to_string(), &rid)
        .unwrap();

    let fetched = pool.fetch(&t1).unwrap();
    assert_eq!(fetched.state, TaskState::Init);
    assert_eq!(fetched.miner, "f01234");
    assert_eq!(fetched.resource_id, rid);
    assert_eq!(fetched.worker_id, "");

    let claimed = pool.fetch_one_todo(&"w1".to_string()).unwrap();
    assert_eq!(claimed.id, t1);
    assert_eq!(claimed.state, TaskState::Running);
    assert_eq!(claimed.worker_id, "w1");

    let ok = pool
        .record_proof(&"w1".to_string(), &t1, &"deadbeef".to_string())
        .is_ok();
    assert!(ok);

    let done = pool.fetch(&t1).unwrap();
    assert_eq!(done.state, TaskState::Completed);
    assert_eq!(done.proof, "deadbeef");
    assert_eq!(done.error_msg, "");

    let empty = pool.fetch_one_todo(&"w1".to_string());
    assert_eq!(empty.unwrap_err(), ProxyError::NoTaskAvailable);
}

#[test]
fn fifo_claim_returns_oldest() {
    let mut pool = TaskPool::new();
    let first = pool.add_task(&"f01234".to_string(), &"r1".to_string()).unwrap();
    let second = pool.add_task(&"f01234".to_string(), &"r2".to_string()).unwrap();

    let got = pool.fetch_one_todo(&"w1".to_string()).unwrap();
    assert_eq!(got.id, first);
    assert_ne!(got.id, second);
}

#[test]
fn two_claims_never_share_a_task() {
    let mut pool = TaskPool::new();
    let a = pool.add_task(&"f01234".to_string(), &"r1".to_string()).unwrap();
    let b = pool.add_task(&"f01234".to_string(), &"r2".to_string()).unwrap();

    let got1 = pool.fetch_one_todo(&"w1".to_string()).unwrap();
    let got2 = pool.fetch_one_todo(&"w2".to_string()).unwrap();
    assert_ne!(got1.id, got2.id);
    assert_eq!(got1.id, a);
    assert_eq!(got2.id, b);

    let third = pool.fetch_one_todo(&"w3".to_string());
    assert_eq!(third.unwrap_err(), ProxyError::NoTaskAvailable);
}

#[test]
fn terminal_task_stays_unchanged() {
    let mut pool = TaskPool::new();
    let tid = pool.add_task(&"f01234".to_string(), &"r1".to_string()).unwrap();
    pool.fetch_one_todo(&"w1".to_string()).unwrap();
    pool.record_proof(&"w1".to_string(), &tid, &"deadbeef".to_string()).unwrap();

    let again = pool.record_proof(&"w1".to_string(), &tid, &"aaaa".to_string());
    assert_eq!(again.unwrap_err(), ProxyError::Conflict);
    let err = pool.record_error(&"w1".to_string(), &tid, &"boom".to_string());
    assert_eq!(err.unwrap_err(), ProxyError::Conflict);

    let t = pool.fetch(&tid).unwrap();
    assert_eq!(t.state, TaskState::Completed);
    assert_eq!(t.proof, "deadbeef");
    assert_eq!(t.error_msg, "");
}

#[test]
fn report_by_other_worker_is_refused() {
    let mut pool = TaskPool::new();
    let tid = pool.add_task(&"f01234".to_string(), &"r1".to_string()).unwrap();
    pool.fetch_one_todo(&"worker_a".to_string()).unwrap();

    let r = pool.record_proof(&"worker_b".to_string(), &tid, &"deadbeef".to_string());
    assert_eq!(r.unwrap_err(), ProxyError::Conflict);

    let t = pool.fetch(&tid).unwrap();
    assert_eq!(t.state, TaskState::Running);
    assert_eq!(t.worker_id, "worker_a");
}

#[test]
fn report_on_unknown_task_is_not_found() {
    let mut pool = TaskPool::new();
    let r = pool.record_error(&"w1".to_string(), &"nope".to_string(), &"boom".to_string());
    assert_eq!(r.unwrap_err(), ProxyError::NotFound);
    let f = pool.fetch(&"nope".to_string());
    assert_eq!(f.unwrap_err(), ProxyError::NotFound);
}

#[test]
fn recovery_lists_running_tasks_of_worker() {
    let mut pool = TaskPool::new();
    let w = pool.get_worker_id();
    let tid = pool.add_task(&"f01234".to_string(), &"r1".to_string()).unwrap();
    pool.add_task(&"f01234".to_string(), &"r2".to_string()).unwrap();
    pool.fetch_one_todo(&w).unwrap();

    // the same persisted identity is handed out again after a restart
    let w_again = pool.get_worker_id();
    assert_eq!(w, w_again);

    let mine = pool.fetch_uncomplte(&w_again);
    assert_eq!(mine.len(), 1);
    assert_eq!(mine[0].id, tid);
    assert_eq!(mine[0].state, TaskState::Running);

    let other = pool.fetch_uncomplte(&"someone_else".to_string());
    assert_eq!(other.len(), 0);
}

#[test]
fn list_task_filters_combine_with_and() {
    let mut pool = TaskPool::new();
    let t1 = pool.add_task(&"f01234".to_string(), &"r1".to_string()).unwrap();
    let t2 = pool.add_task(&"f01234".to_string(), &"r2".to_string()).unwrap();
    pool.add_task(&"f01234".to_string(), &"r3".to_string()).unwrap();
    pool.fetch_one_todo(&"w1".to_string()).unwrap();
    pool.fetch_one_todo(&"w2".to_string()).unwrap();

    let all = pool.list_task(None, None);
    assert_eq!(all.len(), 3);

    let of_w1 = pool.list_task(Some("w1".to_string()), None);
    assert_eq!(of_w1.len(), 1);
    assert_eq!(of_w1[0].id, t1);

    let running = pool.list_task(None, Some(vec![TaskState::Running]));
    assert_eq!(running.len(), 2);

    let both = pool.list_task(Some("w2".to_string()), Some(vec![TaskState::Running]));
    assert_eq!(both.len(), 1);
    assert_eq!(both[0].id, t2);

    let none = pool.list_task(Some("w1".to_string()), Some(vec![TaskState::Completed]));
    assert_eq!(none.len(), 0);

    let init_only = pool.list_task(None, Some(vec![TaskState::Init]));
    assert_eq!(init_only.len(), 1);
}

#[test]
fn resource_round_trip_empty_small_large() {
    let mut store = MemResource::new();

    let empty: Vec<u8> = vec![];
    let small: Vec<u8> = vec![0x01, 0x02, 0x03];
    let mut large: Vec<u8> = Vec::with_capacity(2_000_000);
    for i in 0..2_000_000u32 {
        large.push((i % 251) as u8);
    }

    let id_empty = store.store_resource_info(empty.clone()).unwrap();
    let id_small = store.store_resource_info(small.clone()).unwrap();
    let id_large = store.store_resource_info(large.clone()).unwrap();

    assert_eq!(store.get_resource_info(&id_empty).unwrap(), empty);
    assert_eq!(store.get_resource_info(&id_small).unwrap(), small);
    assert_eq!(store.get_resource_info(&id_large).unwrap(), large);

    let miss = store.get_resource_info(&"missing".to_string());
    assert_eq!(miss.unwrap_err(), ProxyError::NotFound);
}

#[test]
fn storing_under_a_taken_id_is_a_storage_fault() {
    let mut store = MemResource::new();
    let first = store.store_with_id("aaaa-1111".to_string(), vec![1, 2]);
    assert!(first.is_ok());
    let second = store.store_with_id("aaaa-1111".to_string(), vec![3]);
    assert_eq!(second.unwrap_err(), ProxyError::Storage);
    assert_eq!(store.get_resource_info(&"aaaa-1111".to_string()).unwrap(), vec![1, 2]);

    let mut pool = TaskPool::new();
    let t = pool.add_task_with_id("task-1".to_string(), &"f01234".to_string(), &"r1".to_string());
    assert!(t.is_ok());
    let clash = pool.add_task_with_id("task-1".to_string(), &"f01234".to_string(), &"r2".to_string());
    assert_eq!(clash.unwrap_err(), ProxyError::Storage);
}

#[test]
fn generated_resource_ids_are_safe_path_components() {
    let mut store = MemResource::new();
    let id = store.store_resource_info(vec![1]).unwrap();
    assert_eq!(id.len(), 36);
    assert!(gpuproxy::resource::id_is_safe(&id));
}

#[test]
fn submit_c2_task_end_to_end() {
    let pool = TaskPool::new();
    let store = MemResource::new();
    let mut api = ProofImpl::new(pool, store);

    let blob = b"{\"vanilla_proofs\":[1,2,3]}".to_vec();
    let prover_id = [7u8; 32];
    let tid = api
        .submit_c2_task(blob.clone(), "f01234".to_string(), prover_id, 42)
        .unwrap();

    let task = api.get_task(&tid).unwrap();
    assert_eq!(task.state, TaskState::Init);
    assert_eq!(task.miner, "f01234");

    let stored = api.get_resource_info(&task.resource_id).unwrap();
    let c2 = C2::decode(&stored).unwrap();
    assert_eq!(c2.prove_id, prover_id);
    assert_eq!(c2.sector_id, 42);
    assert_eq!(c2.phase1_output, blob);
}

#[test]
fn submit_rejects_undecodable_blob() {
    let pool = TaskPool::new();
    let store = MemResource::new();
    let mut api = ProofImpl::new(pool, store);

    let r = api.submit_c2_task(vec![0xff, 0xfe], "f01234".to_string(), [0u8; 32], 1);
    assert_eq!(r.unwrap_err(), ProxyError::InvalidParams);
    assert!(api.list_task(None, None).unwrap().is_empty());
}

#[test]
fn submit_rejects_bad_miner_address() {
    let pool = TaskPool::new();
    let store = MemResource::new();
    let mut api = ProofImpl::new(pool, store);

    let r = api.submit_c2_task(b"{}".to_vec(), "not an address".to_string(), [0u8; 32], 1);
    assert_eq!(r.unwrap_err(), ProxyError::InvalidParams);

    let r2 = api.submit_c2_task(b"{}".to_vec(), "x01234".to_string(), [0u8; 32], 1);
    assert_eq!(r2.unwrap_err(), ProxyError::InvalidParams);
}

#[test]
fn submit_rejects_short_non_id_candidates() {
    let pool = TaskPool::new();
    let store = MemResource::new();
    let mut api = ProofImpl::new(pool, store);

    // a candidate this short cannot be a valid non-id address; it is
    // refused before the parser is asked about it
    let r = api.submit_c2_task(b"{}".to_vec(), "f2aaa".to_string(), [0u8; 32], 1);
    assert_eq!(r.unwrap_err(), ProxyError::InvalidParams);
    let r2 = api.submit_c2_task(b"{}".to_vec(), "t1aa".to_string(), [0u8; 32], 1);
    assert_eq!(r2.unwrap_err(), ProxyError::InvalidParams);

    // short id addresses are fine
    let ok = api.submit_c2_task(b"{}".to_vec(), "f01".to_string(), [0u8; 32], 1);
    assert!(ok.is_ok());
}

#[test]
fn rpc_adaptor_claim_and_report() {
    let pool = TaskPool::new();
    let store = MemResource::new();
    let mut api = ProofImpl::new(pool, store);

    let tid = api
        .submit_c2_task(b"{}".to_vec(), "f01234".to_string(), [1u8; 32], 9)
        .unwrap();

    let t = api.fetch_todo(&"w1".to_string()).unwrap();
    assert_eq!(t.id, tid);
    assert_eq!(t.state, TaskState::Running);

    let mine = api.fetch_uncomplte(&"w1".to_string()).unwrap();
    assert_eq!(mine.len(), 1);

    let ok = api.record_error(&"w1".to_string(), &tid, &"gpu fell over".to_string()).unwrap();
    assert!(ok);

    let done = api.get_task(&tid).unwrap();
    assert_eq!(done.state, TaskState::Error);
    assert_eq!(done.error_msg, "gpu fell over");
    assert_eq!(done.proof, "");
}

#[test]
fn c2_encode_decode_round_trip() {
    let c2 = C2 { prove_id: [9u8; 32], sector_id: 0xdead_beef_0102_0304, phase1_output: vec![5, 6, 7] };
    let bytes = c2.encode();
    assert_eq!(bytes.len(), 40 + 3);
    let back = C2::decode(&bytes).unwrap();
    assert_eq!(back.prove_id, c2.prove_id);
    assert_eq!(back.sector_id, c2.sector_id);
    assert_eq!(back.phase1_output, c2.phase1_output);
}

#[test]
fn c2_decode_rejects_short_input() {
    assert!(C2::decode(&vec![0u8; 39]).is_none());
    assert!(C2::decode(&vec![]).is_none());
    assert!(C2::decode(&vec![0u8; 40]).is_some());
}

#[test]
fn error_codes_keep_kinds_apart() {
    let kinds = [
        ProxyError::NotFound,
        ProxyError::Conflict,
        ProxyError::NoTaskAvailable,
        ProxyError::Storage,
        ProxyError::InvalidParams,
    ];
    for k in kinds {
        assert_eq!(error_of_code(error_code(k)), Some(k));
    }
    assert_eq!(error_code(ProxyError::InvalidParams), -32602);
    assert_eq!(error_code(ProxyError::Storage), -32603);
    assert_eq!(error_of_code(0), None);
    assert_eq!(error_of_code(-32000), None);
}

#[test]
fn file_resource_resolves_only_safe_ids() {
    let fr = FileResource::new("/var/blobs".to_string());
    let p = fr.resource_path(&"0a1b2c-3d".to_string()).unwrap();
    assert_eq!(p, "/var/blobs/0a1b2c-3d");

    assert!(fr.resource_path(&"../../etc/passwd".to_string()).is_none());
    assert!(fr.resource_path(&"a/b".to_string()).is_none());
    assert!(fr.resource_path(&"".to_string()).is_none());
    assert!(fr.resource_path(&"ABC".to_string()).is_none());
}

#[test]
fn coordinator_walks_the_happy_path() {
    let task = sample_task("t1", "r1");
    let mut c = Coordinator::new("w1".to_string(), 2);

    let a1 = c.step(WorkerEvent::Claimed(task));
    assert!(matches!(a1, WorkerAction::FetchResource(ref rid) if rid == "r1"));

    let a2 = c.step(WorkerEvent::ResourceOk(vec![1, 2]));
    assert!(matches!(a2, WorkerAction::Compute(ref b) if b == &vec![1, 2]));

    let a3 = c.step(WorkerEvent::ComputeOk("proofbytes".to_string()));
    assert!(matches!(a3, WorkerAction::ReportProof(ref tid, ref p) if tid == "t1" && p == "proofbytes"));

    let a4 = c.step(WorkerEvent::ReportOk);
    assert!(matches!(a4, WorkerAction::Poll));
    assert!(matches!(c.phase, WorkerPhase::Idle));
}

#[test]
fn coordinator_retries_then_abandons_report() {
    let task = sample_task("t9", "r9");
    let mut c = Coordinator::new("w1".to_string(), 2);
    c.step(WorkerEvent::Claimed(task));
    c.step(WorkerEvent::ResourceOk(vec![]));
    c.step(WorkerEvent::ComputeFault("out of memory".to_string()));

    let r1 = c.step(WorkerEvent::ReportFault);
    assert!(matches!(r1, WorkerAction::ReportError(ref tid, _) if tid == "t9"));
    let r2 = c.step(WorkerEvent::ReportFault);
    assert!(matches!(r2, WorkerAction::ReportError(_, _)));
    let r3 = c.step(WorkerEvent::ReportFault);
    assert!(matches!(r3, WorkerAction::Abandon(ref tid) if tid == "t9"));
    assert!(matches!(c.phase, WorkerPhase::Idle));
}

#[test]
fn coordinator_backs_off_when_queue_is_empty() {
    let mut c = Coordinator::new("w1".to_string(), 1);
    assert!(matches!(c.step(WorkerEvent::NoTask), WorkerAction::Backoff));
    assert!(matches!(c.step(WorkerEvent::PoolFault), WorkerAction::Backoff));
    assert!(matches!(c.phase, WorkerPhase::Idle));
}

#[test]
fn configs_keep_their_fields() {
    let sc = ServiceConfig::new("127.0.0.1:8888".to_string(), "task.db".to_string(), false);
    assert_eq!(sc.url, "127.0.0.1:8888");
    assert_eq!(sc.db_dsn, "task.db");
    assert!(!sc.disable_worker);

    let cc = ClientConfig::new("http://h:1".to_string());
    assert_eq!(cc.url, "http://h:1");
}

#[test]
fn worker_identity_is_stable() {
    let mut pool = TaskPool::new();
    let w1 = pool.get_worker_id();
    let w2 = pool.get_worker_id();
    assert_eq!(w1, w2);
    assert_eq!(w1.len(), 36);
}

fn sample_task(id: &str, rid: &str) -> gpuproxy::task::Task {
    gpuproxy::task::Task {
        id: id.to_string(),
        miner: "f01234".to_string(),
        resource_id: rid.to_string(),
        state: TaskState::Running,
        worker_id: "w1".to_string(),
        proof: String::new(),
        error_msg: String::new(),
        created_at: 1,
        updated_at: 2,
    }
}
