use wasm_shim_core::error::Error;
use wasm_shim_core::instance::{InstanceConfig, Nop, NopEngine};
use wasm_shim_core::instance_data::InstanceData;
use wasm_shim_core::task_state::TaskState;

#[test]
fn legal_lifecycle_path() {
    let mut s = TaskState::Created;
    s.start().unwrap();
    assert_eq!(s, TaskState::Starting);
    s.started().unwrap();
    assert_eq!(s, TaskState::Running);
    s.kill().unwrap();
    assert_eq!(s, TaskState::Running);
    s.stop().unwrap();
    assert_eq!(s, TaskState::Exited);
    s.delete().unwrap();
    assert_eq!(s, TaskState::Deleting);
}

#[test]
fn illegal_transitions_are_rejected() {
    let mut s = TaskState::Created;
    match s.started().unwrap_err() {
        Error::FailedPrecondition(_) => {}
        _ => panic!("started before start should be FailedPrecondition"),
    }
    assert_eq!(s, TaskState::Created);

    match s.kill().unwrap_err() {
        Error::FailedPrecondition(_) => {}
        _ => panic!("kill outside Running should be FailedPrecondition"),
    }

    s.start().unwrap();
    match s.delete().unwrap_err() {
        Error::FailedPrecondition(_) => {}
        _ => panic!("delete from Starting should be FailedPrecondition"),
    }

    s.stop().unwrap();
    match s.start().unwrap_err() {
        Error::FailedPrecondition(_) => {}
        _ => panic!("start after exit should be FailedPrecondition"),
    }
}

#[test]
fn deleting_can_still_stop() {
    // an instance whose delete failed midway is parked in Exited
    let mut s = TaskState::Exited;
    s.delete().unwrap();
    assert_eq!(s, TaskState::Deleting);
    s.stop().unwrap();
    assert_eq!(s, TaskState::Exited);
}

fn nop_data() -> InstanceData<Nop> {
    let cfg = InstanceConfig::new(NopEngine, "ns".to_string(), "/addr".to_string());
    InstanceData::new("t".to_string(), cfg).unwrap()
}

#[test]
fn wait_and_try_wait_agree() {
    let mut d = nop_data();
    assert_eq!(d.pid(), None);
    assert_eq!(d.try_wait(), None);

    let pid = d.start().unwrap();
    assert_eq!(d.pid(), Some(pid));
    assert_eq!(d.try_wait(), None);

    d.kill(9).unwrap();
    let snapshot = d.try_wait().expect("SIGKILL should have set the exit cell");
    assert_eq!(snapshot.0, 137);

    // wait returns the very pair try_wait reported, and every later
    // try_wait keeps reporting it
    let waited = d.wait();
    assert_eq!(waited, snapshot);
    assert_eq!(d.try_wait(), Some(snapshot));
    assert_eq!(d.try_wait(), Some(snapshot));
}

#[test]
fn config_is_kept() {
    let mut cfg = InstanceConfig::new(NopEngine, "ns".to_string(), "/addr".to_string());
    cfg.set_bundle("/bundle".to_string());
    cfg.set_stdin("in".to_string());
    cfg.set_stdout("out".to_string());
    cfg.set_stderr("err".to_string());
    assert_eq!(cfg.get_bundle(), "/bundle");
    assert_eq!(cfg.get_stdin(), "in");
    assert_eq!(cfg.get_stdout(), "out");
    assert_eq!(cfg.get_stderr(), "err");
    assert_eq!(cfg.get_namespace(), "ns");
    assert_eq!(cfg.get_containerd_address(), "/addr");

    let d: InstanceData<Nop> = InstanceData::new("t".to_string(), cfg).unwrap();
    assert_eq!(d.config().get_bundle(), "/bundle");
}

#[test]
fn nop_rejects_unknown_signals() {
    let mut d = nop_data();
    d.start().unwrap();
    match d.kill(64).unwrap_err() {
        Error::InvalidArgument(_) => {}
        _ => panic!("an unsupported signal should be InvalidArgument"),
    }
    assert_eq!(d.try_wait(), None);
    d.kill(15).unwrap();
    assert_eq!(d.try_wait().unwrap().0, 0);
}
