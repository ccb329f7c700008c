//! Core logic of a containerd shim that runs WebAssembly workloads.
//!
//! The crate models the task-service state: the per-task lifecycle state
//! machine, the exit-code cell that bridges process exit to waiting RPC
//! clients, the id-to-instance map behind the task RPCs, the decision
//! procedures of the executor and of the OCI image module loader, and the
//! OCI hook command preparation. I/O (RPC transport, filesystem, process
//! management) stays outside; the functions here take the outside results
//! as plain values and are verified for every such value.

pub mod containerd;
pub mod error;
pub mod executor;
pub mod hooks;
pub mod instance;
pub mod instance_data;
pub mod instance_option;
pub mod lease;
pub mod local;
pub mod metrics;
pub mod oci;
pub mod sync;
pub mod sys;
pub mod task_state;
pub mod time;
