//! Cgroup metric collection. Collection is a stub: the RPC reports the
//! operation as unimplemented.

use vstd::prelude::*;

use crate::error::{spec_status_code, Code, Error, Status};

verus! {

/// Cgroup metrics for one task.
#[derive(Debug)]
pub struct Metrics {}

/// Metric collection for a pid; not yet wired to the cgroup tree, so
/// every call reports `Unimplemented`.
pub fn get_metrics(_pid: u32) -> (r: Result<Metrics, Error>)
    ensures
        r matches Err(e) && spec_status_code(&e) == Code::Unimplemented,
{
    Err(Error::Ttrpc(Status::unimplemented("metrics are not yet implemented".to_owned())))
}

} // verus!
