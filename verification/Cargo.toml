[package]
name = "wasm_shim_core"
version = "0.1.0"
edition = "2021"
publish = false

[dependencies]
chrono = "*"
oci-spec = "*"
serde_json = "*"
