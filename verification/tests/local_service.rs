use wasm_shim_core::error::Error;
use wasm_shim_core::local::{ConnectRequest, ShutdownAction, ShutdownRequest};
use wasm_shim_core::instance::{Nop, NopEngine};
use wasm_shim_core::instance_option::InstanceOption;
use wasm_shim_core::local::{
    CreateTaskRequest, DeleteRequest, KillRequest, Local, Poll, StartRequest, StateRequest,
    StatsRequest, TaskStatus, WaitRequest,
};
use wasm_shim_core::oci::{with_cri_sandbox, OciSpec};

fn service() -> Local<Nop> {
    Local::new(NopEngine, "test_namespace".to_string(), "/test/address".to_string())
}

fn bundle_spec() -> OciSpec {
    OciSpec {
        root: Some("rootfs".to_string()),
        annotations: Vec::new(),
        prestart_hooks: Vec::new(),
    }
}

fn create_req(id: &str) -> CreateTaskRequest {
    CreateTaskRequest {
        id: id.to_string(),
        bundle: "/bundle".to_string(),
        terminal: false,
        checkpoint: String::new(),
        parent_checkpoint: String::new(),
        stdin: String::new(),
        stdout: String::new(),
        stderr: String::new(),
        rootfs: Vec::new(),
    }
}

fn start_req(id: &str) -> StartRequest {
    StartRequest { id: id.to_string(), exec_id: String::new() }
}

fn state_req(id: &str) -> StateRequest {
    StateRequest { id: id.to_string(), exec_id: String::new() }
}

fn kill_req(id: &str, signal: u32) -> KillRequest {
    KillRequest { id: id.to_string(), exec_id: String::new(), signal }
}

fn delete_req(id: &str) -> DeleteRequest {
    DeleteRequest { id: id.to_string(), exec_id: String::new() }
}

fn wait_req(id: &str) -> WaitRequest {
    WaitRequest { id: id.to_string(), exec_id: String::new() }
}

#[test]
fn test_delete_after_create() {
    let mut local = service();
    let id = "test-delete-after-create";

    local.task_create(create_req(id), Some(bundle_spec()), 1, true).unwrap();
    local.task_delete(delete_req(id), true).unwrap();

    match local.task_state(&state_req(id)).unwrap_err() {
        Error::NotFound(_) => {}
        _ => panic!("state after delete should be NotFound"),
    }
}

#[test]
fn test_task_lifecycle() {
    let mut local = service();

    match local.task_state(&state_req("test")).unwrap_err() {
        Error::NotFound(_) => {}
        _ => panic!("state of unknown id should be NotFound"),
    }

    local.task_create(create_req("test"), Some(bundle_spec()), 1, true).unwrap();

    match local
        .task_create(create_req("test"), Some(bundle_spec()), 1, true)
        .unwrap_err()
    {
        Error::AlreadyExists(_) => {}
        _ => panic!("second create should be AlreadyExists"),
    }

    let state = local.task_state(&state_req("test")).unwrap();
    assert_eq!(state.status, TaskStatus::Created);

    local.task_start(start_req("test"), true).unwrap();

    let state = local.task_state(&state_req("test")).unwrap();
    assert_eq!(state.status, TaskStatus::Running);

    // metric collection is a stub: stats report unimplemented
    assert!(local.task_stats(&StatsRequest { id: "test".to_string() }).is_err());

    local.task_kill(kill_req("test", 9)).unwrap();

    match local.task_wait(wait_req("test")).unwrap() {
        Poll::Ready(resp) => assert_eq!(resp.exit_status, 137),
        Poll::Pending => panic!("task should have exited after SIGKILL"),
    }

    let state = local.task_state(&state_req("test")).unwrap();
    assert_eq!(state.status, TaskStatus::Stopped);

    local.task_delete(delete_req("test"), true).unwrap();

    match local.task_state(&state_req("test")).unwrap_err() {
        Error::NotFound(_) => {}
        _ => panic!("state after delete should be NotFound"),
    }
}

#[test]
fn test_cri_task() {
    // Two containers of the same pod share the sandbox annotation; their
    // lifecycles stay independent: killing one leaves the other running.
    let mut local = service();
    let sandbox_id = "test-cri-task".to_string();
    let spec = with_cri_sandbox(Some(bundle_spec()), sandbox_id.clone());
    let spec2 = with_cri_sandbox(Some(bundle_spec()), sandbox_id);

    local.task_create(create_req("testbase"), Some(spec), 1, true).unwrap();
    let state = local.task_state(&state_req("testbase")).unwrap();
    assert_eq!(state.status, TaskStatus::Created);

    // the first container of the pod is the sandbox: it runs no workload
    let base = local.get_instance(&"testbase".to_string()).unwrap();
    assert!(matches!(base.instance(), InstanceOption::Nop(_)));
    local.task_start(start_req("testbase"), true).unwrap();
    let state = local.task_state(&state_req("testbase")).unwrap();
    assert_eq!(state.status, TaskStatus::Running);

    local.task_create(create_req("testinstance"), Some(spec2), 1, true).unwrap();
    let state = local.task_state(&state_req("testinstance")).unwrap();
    assert_eq!(state.status, TaskStatus::Created);

    // a later container of the same pod is a real workload
    let inst = local.get_instance(&"testinstance".to_string()).unwrap();
    assert!(matches!(inst.instance(), InstanceOption::Instance(_)));
    local.task_start(start_req("testinstance"), true).unwrap();
    let state = local.task_state(&state_req("testinstance")).unwrap();
    assert_eq!(state.status, TaskStatus::Running);

    local.task_kill(kill_req("testinstance", 9)).unwrap();
    match local.task_wait(wait_req("testinstance")).unwrap() {
        Poll::Ready(_) => {}
        Poll::Pending => panic!("killed task should have exited"),
    }
    let state = local.task_state(&state_req("testinstance")).unwrap();
    assert_eq!(state.status, TaskStatus::Stopped);
    local.task_delete(delete_req("testinstance"), true).unwrap();
    match local.task_state(&state_req("testinstance")).unwrap_err() {
        Error::NotFound(_) => {}
        _ => panic!("state after delete should be NotFound"),
    }

    // the base container is untouched by its sibling's kill and delete
    let state = local.task_state(&state_req("testbase")).unwrap();
    assert_eq!(state.status, TaskStatus::Running);

    local.task_kill(kill_req("testbase", 9)).unwrap();
    match local.task_wait(wait_req("testbase")).unwrap() {
        Poll::Ready(_) => {}
        Poll::Pending => panic!("killed task should have exited"),
    }
    let state = local.task_state(&state_req("testbase")).unwrap();
    assert_eq!(state.status, TaskStatus::Stopped);
    local.task_delete(delete_req("testbase"), true).unwrap();
    match local.task_state(&state_req("testbase")).unwrap_err() {
        Error::NotFound(_) => {}
        _ => panic!("state after delete should be NotFound"),
    }
}

#[test]
fn map_queries() {
    let mut local = service();
    assert!(local.is_empty());
    assert!(!local.has_instance(&"q".to_string()));
    assert!(local.get_instance(&"q".to_string()).is_err());

    let cfg = local.instance_config();
    assert_eq!(cfg.get_namespace(), "test_namespace");
    assert_eq!(cfg.get_containerd_address(), "/test/address");
    assert_eq!(cfg.get_bundle(), "");

    local.task_create(create_req("q"), Some(bundle_spec()), 1, true).unwrap();
    assert!(!local.is_empty());
    assert!(local.has_instance(&"q".to_string()));
    let d = local.get_instance(&"q".to_string()).unwrap();
    assert_eq!(d.pid(), None);
    assert_eq!(d.config().get_bundle(), "/bundle");
}

#[test]
fn delete_unknown_id_not_found() {
    let mut local = service();
    match local.task_delete(delete_req("missing"), true).unwrap_err() {
        Error::NotFound(id) => assert_eq!(id, "missing"),
        _ => panic!("delete of unknown id should be NotFound"),
    }
}

#[test]
fn publish_failure_does_not_affect_results() {
    // The same sequence with a failing and a working publisher yields
    // the same RPC results.
    let mut ok = service();
    let mut failing = service();

    let a = ok.task_create(create_req("t"), Some(bundle_spec()), 7, true).unwrap();
    let b = failing.task_create(create_req("t"), Some(bundle_spec()), 7, false).unwrap();
    assert_eq!(a.pid, b.pid);

    let a = ok.task_start(start_req("t"), true).unwrap();
    let b = failing.task_start(start_req("t"), false).unwrap();
    assert_eq!(a.pid, b.pid);

    ok.task_kill(kill_req("t", 9)).unwrap();
    failing.task_kill(kill_req("t", 9)).unwrap();

    match (ok.task_wait(wait_req("t")).unwrap(), failing.task_wait(wait_req("t")).unwrap()) {
        (Poll::Ready(a), Poll::Ready(b)) => assert_eq!(a.exit_status, b.exit_status),
        _ => panic!("both tasks should have exited"),
    }

    let a = ok.task_delete(delete_req("t"), true).unwrap();
    let b = failing.task_delete(delete_req("t"), false).unwrap();
    assert_eq!(a.pid, b.pid);
    assert_eq!(a.exit_status, b.exit_status);
}

#[test]
fn exec_id_is_rejected() {
    let mut local = service();
    local.task_create(create_req("t"), Some(bundle_spec()), 1, true).unwrap();

    let start = StartRequest { id: "t".to_string(), exec_id: "e".to_string() };
    match local.task_start(start, true).unwrap_err() {
        Error::Ttrpc(s) => {
            assert_eq!(s.code(), wasm_shim_core::error::Code::Unimplemented);
        }
        _ => panic!("start with exec id should be unimplemented"),
    }

    let kill = KillRequest { id: "t".to_string(), exec_id: "e".to_string(), signal: 9 };
    match local.task_kill(kill).unwrap_err() {
        Error::InvalidArgument(_) => {}
        _ => panic!("kill with exec id should be InvalidArgument"),
    }

    let delete = DeleteRequest { id: "t".to_string(), exec_id: "e".to_string() };
    match local.task_delete(delete, true).unwrap_err() {
        Error::InvalidArgument(_) => {}
        _ => panic!("delete with exec id should be InvalidArgument"),
    }

    let wait = WaitRequest { id: "t".to_string(), exec_id: "e".to_string() };
    match local.task_wait(wait).unwrap_err() {
        Error::InvalidArgument(_) => {}
        _ => panic!("wait with exec id should be InvalidArgument"),
    }

    let state = StateRequest { id: "t".to_string(), exec_id: "e".to_string() };
    match local.task_state(&state).unwrap_err() {
        Error::InvalidArgument(_) => {}
        _ => panic!("state with exec id should be InvalidArgument"),
    }
}

#[test]
fn create_rejects_checkpoint_terminal_and_missing_spec() {
    let mut local = service();

    let mut req = create_req("c");
    req.checkpoint = "ckpt".to_string();
    match local.task_create(req, Some(bundle_spec()), 1, true).unwrap_err() {
        Error::Ttrpc(s) => assert_eq!(s.code(), wasm_shim_core::error::Code::Unimplemented),
        _ => panic!("checkpoint create should be unimplemented"),
    }

    let mut req = create_req("c");
    req.terminal = true;
    match local.task_create(req, Some(bundle_spec()), 1, true).unwrap_err() {
        Error::Ttrpc(s) => assert_eq!(s.code(), wasm_shim_core::error::Code::InvalidArgument),
        _ => panic!("terminal create should be InvalidArgument"),
    }

    match local.task_create(create_req("c"), None, 1, true).unwrap_err() {
        Error::InvalidArgument(_) => {}
        _ => panic!("create without a loadable spec should be InvalidArgument"),
    }

    let no_root = OciSpec { root: None, annotations: Vec::new(), prestart_hooks: Vec::new() };
    match local.task_create(create_req("c"), Some(no_root), 1, true).unwrap_err() {
        Error::InvalidArgument(_) => {}
        _ => panic!("create without a rootfs should be InvalidArgument"),
    }
}

#[test]
fn wait_is_pending_until_exit() {
    let mut local = service();
    local.task_create(create_req("w"), Some(bundle_spec()), 1, true).unwrap();
    local.task_start(start_req("w"), true).unwrap();
    match local.task_wait(wait_req("w")).unwrap() {
        Poll::Pending => {}
        Poll::Ready(_) => panic!("wait should be pending before exit"),
    }
    local.task_kill(kill_req("w", 15)).unwrap();
    match local.task_wait(wait_req("w")).unwrap() {
        Poll::Ready(resp) => assert_eq!(resp.exit_status, 0),
        Poll::Pending => panic!("wait should be ready after exit"),
    }
}

#[test]
fn exit_event_is_published_once_exited() {
    let mut local = service();
    local.task_create(create_req("x"), Some(bundle_spec()), 1, true).unwrap();
    local.task_start(start_req("x"), true).unwrap();
    match local.publish_exit_event(&"x".to_string(), true).unwrap() {
        Poll::Pending => {}
        Poll::Ready(_) => panic!("no exit to publish yet"),
    }
    local.task_kill(kill_req("x", 9)).unwrap();
    match local.publish_exit_event(&"x".to_string(), true).unwrap() {
        Poll::Ready(()) => {}
        Poll::Pending => panic!("exit should be publishable"),
    }
}

#[test]
fn shutdown_actions() {
    let mut local = service();
    let graceful = ShutdownRequest { id: String::new(), now: false };
    let now = ShutdownRequest { id: String::new(), now: true };
    assert_eq!(local.shutdown(&graceful), ShutdownAction::Graceful);
    assert_eq!(local.shutdown(&now), ShutdownAction::Terminate);

    local.task_create(create_req("s"), Some(bundle_spec()), 1, true).unwrap();
    assert_eq!(local.shutdown(&graceful), ShutdownAction::Ignore);
    assert_eq!(local.shutdown(&now), ShutdownAction::Terminate);
}

#[test]
fn connect_reports_pids() {
    let mut local = service();
    local.task_create(create_req("c"), Some(bundle_spec()), 1, true).unwrap();
    let resp = local.connect(&ConnectRequest { id: "c".to_string() }, 99).unwrap();
    assert_eq!(resp.shim_pid, 99);
    assert_eq!(resp.task_pid, 0);
    match local.connect(&ConnectRequest { id: "nope".to_string() }, 99).unwrap_err() {
        Error::NotFound(_) => {}
        _ => panic!("connect to unknown id should be NotFound"),
    }
}

#[test]
fn start_requires_created_state() {
    let mut local = service();
    local.task_create(create_req("t"), Some(bundle_spec()), 1, true).unwrap();
    local.task_start(start_req("t"), true).unwrap();
    match local.task_start(start_req("t"), true).unwrap_err() {
        Error::FailedPrecondition(_) => {}
        _ => panic!("second start should be FailedPrecondition"),
    }
}

#[test]
fn delete_requires_created_or_exited() {
    let mut local = service();
    local.task_create(create_req("t"), Some(bundle_spec()), 1, true).unwrap();
    local.task_start(start_req("t"), true).unwrap();
    match local.task_delete(delete_req("t"), true).unwrap_err() {
        Error::FailedPrecondition(_) => {}
        _ => panic!("delete of a running task should be FailedPrecondition"),
    }
}
