use wasm_shim_core::instance::{Instance, InstanceConfig, Nop, NopEngine};
use wasm_shim_core::instance_option::InstanceOption;

#[test]
fn nop_variant_runs_the_pause_lifecycle() {
    let cfg: InstanceConfig<NopEngine> =
        InstanceConfig::new(NopEngine, "ns".to_string(), "/a".to_string());
    let nop = match Nop::new("pause".to_string(), &cfg) {
        Ok(n) => n,
        Err(_) => panic!("the no-op instance always builds"),
    };
    let mut i: InstanceOption<Nop> = InstanceOption::Nop(nop);

    assert!(i.try_wait().is_none());
    let pid = i.start().unwrap();
    assert_eq!(pid, 0);
    i.kill(9).unwrap();
    let (code, at) = i.wait();
    assert_eq!(code, 137);
    assert_eq!(i.try_wait(), Some((code, at)));
    i.delete().unwrap();
    assert_eq!(i.try_wait(), Some((code, at)));
}

#[test]
fn real_variant_is_built_by_new() {
    let cfg: InstanceConfig<NopEngine> =
        InstanceConfig::new(NopEngine, "ns".to_string(), "/a".to_string());
    let i: InstanceOption<Nop> = match InstanceOption::new("c".to_string(), &cfg) {
        Ok(i) => i,
        Err(_) => panic!("creation should succeed"),
    };
    assert!(matches!(i, InstanceOption::Instance(_)));
}
