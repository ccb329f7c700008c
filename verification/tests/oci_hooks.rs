use wasm_shim_core::hooks::{parse_env_entry, prepare_hook_command, split_hook_args};
use wasm_shim_core::oci::{amap_lookup, sandbox_grouping, with_cri_sandbox, OciHook, OciSpec};

fn hook(path: &str, args: Vec<&str>, env: Vec<&str>) -> OciHook {
    OciHook {
        path: path.to_string(),
        args: args.into_iter().map(|s| s.to_string()).collect(),
        env: env.into_iter().map(|s| s.to_string()).collect(),
    }
}

#[test]
fn env_entry_splits_at_first_equals() {
    assert_eq!(
        parse_env_entry(&"PATH=/usr/bin".to_string()),
        ("PATH".to_string(), "/usr/bin".to_string())
    );
    // the value keeps every further equals sign
    assert_eq!(
        parse_env_entry(&"OPTS=a=b=c".to_string()),
        ("OPTS".to_string(), "a=b=c".to_string())
    );
    // an entry without equals is a key with an empty value
    assert_eq!(parse_env_entry(&"LONELY".to_string()), ("LONELY".to_string(), String::new()));
    // an empty value after the equals
    assert_eq!(parse_env_entry(&"EMPTY=".to_string()), ("EMPTY".to_string(), String::new()));
    // a leading equals makes an empty key
    assert_eq!(parse_env_entry(&"=v".to_string()), (String::new(), "v".to_string()));
}

#[test]
fn argv0_comes_from_args_when_present() {
    // per the OCI spec the first args element is argv0 and may differ
    // from the path
    let h = hook("/usr/bin/true", vec!["true", "-x"], vec![]);
    let (argv0, args) = split_hook_args(&h);
    assert_eq!(argv0, "true");
    assert_eq!(args, vec!["-x".to_string()]);

    let h = hook("/usr/bin/true", vec![], vec![]);
    let (argv0, args) = split_hook_args(&h);
    assert_eq!(argv0, "/usr/bin/true");
    assert!(args.is_empty());
}

#[test]
fn hook_command_is_fully_prepared() {
    let h = hook(
        "/hooks/netns",
        vec!["netns", "--up"],
        vec!["A=1", "B=x=y", "C"],
    );
    let cmd = prepare_hook_command(&h);
    assert_eq!(cmd.path, "/hooks/netns");
    assert_eq!(cmd.argv0, "netns");
    assert_eq!(cmd.args, vec!["--up".to_string()]);
    assert_eq!(
        cmd.env,
        vec![
            ("A".to_string(), "1".to_string()),
            ("B".to_string(), "x=y".to_string()),
            ("C".to_string(), String::new()),
        ]
    );
}

#[test]
fn with_cri_sandbox_sets_the_annotation() {
    let spec = with_cri_sandbox(None, "pod-A".to_string());
    let key = "io.kubernetes.cri.sandbox-id".to_string();
    assert_eq!(amap_lookup(&spec.annotations, &key), Some(&"pod-A".to_string()));

    // an existing annotation map is kept; the sandbox key is replaced
    let base = OciSpec {
        root: Some("rootfs".to_string()),
        annotations: vec![
            ("other".to_string(), "kept".to_string()),
            (key.clone(), "old".to_string()),
        ],
        prestart_hooks: Vec::new(),
    };
    let spec = with_cri_sandbox(Some(base), "pod-B".to_string());
    assert_eq!(amap_lookup(&spec.annotations, &key), Some(&"pod-B".to_string()));
    assert_eq!(
        amap_lookup(&spec.annotations, &"other".to_string()),
        Some(&"kept".to_string())
    );
    assert_eq!(spec.root, Some("rootfs".to_string()));
}

#[test]
fn grouping_prefers_the_sandbox_annotation() {
    let spec = with_cri_sandbox(None, "pod-A".to_string());
    assert_eq!(sandbox_grouping(&spec, &"container-7".to_string()), "pod-A");

    let bare = OciSpec { root: None, annotations: Vec::new(), prestart_hooks: Vec::new() };
    assert_eq!(sandbox_grouping(&bare, &"container-7".to_string()), "container-7");
}
