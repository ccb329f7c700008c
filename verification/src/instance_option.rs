//! Either a real engine-backed instance or the no-op instance.
//!
//! A CRI sandbox (pause) container runs no workload of its own; the task
//! service holds the no-op instance for it and a real instance for every
//! other container, behind one instance type.

use vstd::prelude::*;

use crate::error::Error;
use crate::instance::{Instance, InstanceConfig, Nop};
use crate::sys::spec_valid_signal;
use crate::time::Timestamp;

verus! {

/// One task's instance: a real workload or a sandbox placeholder.
pub enum InstanceOption<I: Instance> {
    Instance(I),
    Nop(Nop),
}

impl<I: Instance> Instance for InstanceOption<I> {
    type Engine = I::Engine;

    open spec fn exit_result(&self) -> Option<(u32, Timestamp)> {
        match self {
            InstanceOption::Instance(i) => i.exit_result(),
            InstanceOption::Nop(n) => n.exit_result(),
        }
    }

    /// Creates a real instance; the no-op variant is chosen by the
    /// service when it recognises a sandbox container.
    fn new(id: String, cfg: &InstanceConfig<I::Engine>) -> (r: Result<Self, Error>)
        ensures
            r matches Ok(i) ==> i.exit_result() is None && i is Instance,
    {
        match I::new(id, cfg) {
            Ok(i) => Ok(InstanceOption::Instance(i)),
            Err(e) => Err(e),
        }
    }

    fn start(&mut self) -> (r: Result<u32, Error>)
        ensures
            old(self).exit_result() is Some ==> final(self).exit_result() == old(
                self,
            ).exit_result(),
    {
        match self {
            InstanceOption::Instance(i) => i.start(),
            InstanceOption::Nop(n) => n.start(),
        }
    }

    fn kill(&mut self, signal: u32) -> (r: Result<(), Error>)
        ensures
            old(self).exit_result() is Some ==> final(self).exit_result() == old(
                self,
            ).exit_result(),
            !spec_valid_signal(signal) ==> {
                &&& r matches Err(e) && e is InvalidArgument
                &&& final(self).exit_result() == old(self).exit_result()
            },
    {
        match self {
            InstanceOption::Instance(i) => i.kill(signal),
            InstanceOption::Nop(n) => n.kill(signal),
        }
    }

    fn delete(&mut self) -> (r: Result<(), Error>)
        ensures
            final(self).exit_result() == old(self).exit_result(),
    {
        match self {
            InstanceOption::Instance(i) => i.delete(),
            InstanceOption::Nop(n) => n.delete(),
        }
    }

    fn wait(&self) -> (r: (u32, Timestamp))
        ensures
            r == self.exit_result()->0,
    {
        match self {
            InstanceOption::Instance(i) => i.wait(),
            InstanceOption::Nop(n) => n.wait(),
        }
    }

    fn try_wait(&self) -> (r: Option<(u32, Timestamp)>)
        ensures
            r == self.exit_result(),
    {
        match self {
            InstanceOption::Instance(i) => i.try_wait(),
            InstanceOption::Nop(n) => n.try_wait(),
        }
    }
}

} // verus!
