use wasm_shim_core::error::Error;
use wasm_shim_core::containerd::{
    concat_chunks, is_wasm_layer, modules_or_fallback, select_wasm_layers, sole_module, Layer,
    LoadAction, LoadEvent, ModuleLoader, OciDescriptor, OciPlatform,
};

const DIGEST_A: &str =
    "sha256:aaaaaaaaaaaaaaaaaaaaaaaaaaaaaaaaaaaaaaaaaaaaaaaaaaaaaaaaaaaaaaaa";
const DIGEST_B: &str =
    "sha256:bbbbbbbbbbbbbbbbbbbbbbbbbbbbbbbbbbbbbbbbbbbbbbbbbbbbbbbbbbbbbbbb";
const DIGEST_C: &str =
    "sha256:cccccccccccccccccccccccccccccccccccccccccccccccccccccccccccccccc";

fn manifest_json() -> Vec<u8> {
    format!(
        "{{\"schemaVersion\":2,\"config\":{{\"mediaType\":\"application/vnd.oci.image.config.v1+json\",\"digest\":\"{}\",\"size\":7}},\"layers\":[{{\"mediaType\":\"application/vnd.wasm.content.layer.v1+wasm\",\"digest\":\"{}\",\"size\":3}},{{\"mediaType\":\"application/vnd.oci.image.layer.v1.tar\",\"digest\":\"{}\",\"size\":3}}]}}",
        DIGEST_A, DIGEST_B, DIGEST_C
    )
    .into_bytes()
}

fn platform_json(arch: &str) -> Vec<u8> {
    format!("{{\"architecture\":\"{}\",\"os\":\"linux\"}}", arch).into_bytes()
}

fn supported() -> Vec<String> {
    vec!["application/vnd.wasm.content.layer.v1+wasm".to_string()]
}

#[test]
fn loader_happy_path() {
    let (loader, action) = ModuleLoader::new("c1".to_string(), supported());
    match action {
        LoadAction::GetContainer { id } => assert_eq!(id, "c1"),
        _ => panic!("loader should ask for the container first"),
    }

    let (loader, action) =
        loader.step(LoadEvent::Container { image: "registry/app:latest".to_string() });
    match action {
        LoadAction::GetImage { name } => assert_eq!(name, "registry/app:latest"),
        _ => panic!("loader should ask for the image record"),
    }

    let (loader, action) =
        loader.step(LoadEvent::Image { manifest_digest: DIGEST_A.to_string() });
    match action {
        LoadAction::ReadContent { digest } => assert_eq!(digest, DIGEST_A),
        _ => panic!("loader should read the manifest"),
    }

    // the manifest parse must really happen: the next read is the config
    // digest taken out of the manifest bytes
    let (loader, action) = loader.step(LoadEvent::Content { bytes: manifest_json() });
    match action {
        LoadAction::ReadContent { digest } => assert_eq!(digest, DIGEST_A),
        _ => panic!("loader should read the image config"),
    }

    // a wasm-architecture config: the one supported layer is read next
    let (loader, action) = loader.step(LoadEvent::Content { bytes: platform_json("wasm") });
    match action {
        LoadAction::ReadContent { digest } => assert_eq!(digest, DIGEST_B),
        _ => panic!("loader should read the wasm layer"),
    }

    let (_loader, action) = loader.step(LoadEvent::Content { bytes: vec![1, 2, 3] });
    match action {
        LoadAction::Finish { layers, platform } => {
            assert_eq!(layers.len(), 1);
            assert_eq!(layers[0].config.digest, DIGEST_B);
            assert_eq!(
                layers[0].config.media_type,
                "application/vnd.wasm.content.layer.v1+wasm"
            );
            assert_eq!(layers[0].layer, vec![1, 2, 3]);
            assert_eq!(platform.architecture, "wasm");
            assert_eq!(platform.os, "linux");
        }
        _ => panic!("loader should finish with the wasm layer"),
    }
}

#[test]
fn loader_plain_oci_image_yields_no_modules() {
    let (loader, _) = ModuleLoader::new("c1".to_string(), supported());
    let (loader, _) = loader.step(LoadEvent::Container { image: "app".to_string() });
    let (loader, _) = loader.step(LoadEvent::Image { manifest_digest: DIGEST_A.to_string() });
    let (loader, _) = loader.step(LoadEvent::Content { bytes: manifest_json() });
    let (_loader, action) = loader.step(LoadEvent::Content { bytes: platform_json("amd64") });
    match action {
        LoadAction::Finish { layers, platform } => {
            assert_eq!(layers.len(), 0);
            assert_eq!(platform.architecture, "amd64");
        }
        _ => panic!("a non-wasm image should finish with no layers"),
    }
}

#[test]
fn loader_no_supported_layer_yields_no_modules() {
    let (loader, _) =
        ModuleLoader::new("c1".to_string(), vec!["application/other".to_string()]);
    let (loader, _) = loader.step(LoadEvent::Container { image: "app".to_string() });
    let (loader, _) = loader.step(LoadEvent::Image { manifest_digest: DIGEST_A.to_string() });
    let (loader, _) = loader.step(LoadEvent::Content { bytes: manifest_json() });
    let (_loader, action) = loader.step(LoadEvent::Content { bytes: platform_json("wasm") });
    match action {
        LoadAction::Finish { layers, .. } => assert_eq!(layers.len(), 0),
        _ => panic!("no supported layer should finish with no layers"),
    }
}

#[test]
fn loader_bad_manifest_fails_soft() {
    // any parse error surfaces as a containerd error, like an RPC failure
    let (loader, _) = ModuleLoader::new("c1".to_string(), supported());
    let (loader, _) = loader.step(LoadEvent::Container { image: "app".to_string() });
    let (loader, _) = loader.step(LoadEvent::Image { manifest_digest: DIGEST_A.to_string() });
    let (_loader, action) = loader.step(LoadEvent::Content { bytes: b"not json".to_vec() });
    match action {
        LoadAction::Fail { error: Error::Containerd(_) } => {}
        _ => panic!("a bad manifest should fail as a containerd error"),
    }
}

#[test]
fn loader_bad_config_fails_soft() {
    let (loader, _) = ModuleLoader::new("c1".to_string(), supported());
    let (loader, _) = loader.step(LoadEvent::Container { image: "app".to_string() });
    let (loader, _) = loader.step(LoadEvent::Image { manifest_digest: DIGEST_A.to_string() });
    let (loader, _) = loader.step(LoadEvent::Content { bytes: manifest_json() });
    let (_loader, action) = loader.step(LoadEvent::Content { bytes: b"{".to_vec() });
    match action {
        LoadAction::Fail { error: Error::Containerd(_) } => {}
        _ => panic!("a bad image config should fail as a containerd error"),
    }
}

#[test]
fn failed_load_falls_back_to_no_modules() {
    let default = OciPlatform { architecture: "amd64".to_string(), os: "linux".to_string() };
    let failed = LoadAction::Fail { error: Error::Containerd("connection refused".to_string()) };
    let (layers, platform) = modules_or_fallback(failed, default);
    assert!(layers.is_empty());
    assert_eq!(platform.architecture, "amd64");

    let default = OciPlatform { architecture: "amd64".to_string(), os: "linux".to_string() };
    let finished = LoadAction::Finish {
        layers: vec![Layer {
            config: OciDescriptor { digest: DIGEST_B.to_string(), media_type: "m".to_string() },
            layer: vec![7],
        }],
        platform: OciPlatform { architecture: "wasm".to_string(), os: "linux".to_string() },
    };
    let (layers, platform) = modules_or_fallback(finished, default);
    assert_eq!(layers.len(), 1);
    assert_eq!(platform.architecture, "wasm");
}

#[test]
fn loader_upstream_failure_fails_soft() {
    let (loader, _) = ModuleLoader::new("c1".to_string(), supported());
    let (_loader, action) =
        loader.step(LoadEvent::Failed { message: "connection refused".to_string() });
    match action {
        LoadAction::Fail { error: Error::Containerd(msg) } => {
            assert_eq!(msg, "connection refused")
        }
        _ => panic!("an upstream failure should fail as a containerd error"),
    }
}

#[test]
fn wasm_layer_filter() {
    let supported = supported();
    assert!(is_wasm_layer(
        &"application/vnd.wasm.content.layer.v1+wasm".to_string(),
        &supported
    ));
    assert!(!is_wasm_layer(&"application/vnd.oci.image.layer.v1.tar".to_string(), &supported));

    let layers = vec![
        OciDescriptor {
            digest: DIGEST_B.to_string(),
            media_type: "application/vnd.wasm.content.layer.v1+wasm".to_string(),
        },
        OciDescriptor {
            digest: DIGEST_C.to_string(),
            media_type: "application/vnd.oci.image.layer.v1.tar".to_string(),
        },
    ];
    let selected = select_wasm_layers(&layers, &supported);
    assert_eq!(selected.len(), 1);
    assert_eq!(selected[0].digest, DIGEST_B);
}

#[test]
fn single_module_engines_take_exactly_one_layer() {
    let layer = |d: &str| Layer {
        config: OciDescriptor { digest: d.to_string(), media_type: "m".to_string() },
        layer: vec![7],
    };
    assert!(sole_module(Vec::new()).is_err());
    assert!(sole_module(vec![layer(DIGEST_B), layer(DIGEST_C)]).is_err());
    let m = sole_module(vec![layer(DIGEST_B)]).unwrap();
    assert_eq!(m.config.digest, DIGEST_B);
}

#[test]
fn chunks_concatenate_in_order() {
    let chunks = vec![vec![1u8, 2], vec![], vec![3, 4, 5]];
    assert_eq!(concat_chunks(&chunks), vec![1, 2, 3, 4, 5]);
    let none: Vec<Vec<u8>> = Vec::new();
    assert_eq!(concat_chunks(&none), Vec::<u8>::new());
}
