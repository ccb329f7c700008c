//! An instance together with its lifecycle state machine and pid latch.
//!
//! Every operation first consults the state machine, so the sequence of
//! operations a task accepts is always a legal path through `TaskState`.

use vstd::prelude::*;

use crate::error::Error;
use crate::instance::{Instance, InstanceConfig};
use crate::sys::spec_valid_signal;
use crate::task_state::TaskState;
use crate::time::Timestamp;

verus! {

pub struct InstanceData<I: Instance> {
    instance: I,
    cfg: InstanceConfig<I::Engine>,
    pid: Option<u32>,
    state: TaskState,
}

impl<I: Instance> InstanceData<I> {
    /// The wrapped instance, for specification purposes.
    pub closed spec fn spec_instance(&self) -> I {
        self.instance
    }

    pub closed spec fn spec_pid(&self) -> Option<u32> {
        self.pid
    }

    pub closed spec fn spec_state(&self) -> TaskState {
        self.state
    }

    pub closed spec fn spec_config(&self) -> &InstanceConfig<I::Engine> {
        &self.cfg
    }

    /// Creates the instance for `id` and wraps it: the new task is
    /// `Created`, has no pid yet and has not exited.
    pub fn new(id: String, cfg: InstanceConfig<I::Engine>) -> (r: Result<Self, Error>)
        ensures
            r matches Ok(d) ==> {
                &&& d.spec_state() is Created
                &&& d.spec_pid() is None
                &&& d.spec_instance().exit_result() is None
                &&& d.spec_config() == &cfg
            },
    {
        let instance = I::new(id, &cfg)?;
        Ok(Self::from_parts(instance, cfg))
    }

    /// Wraps an already-built instance as a fresh `Created` task.
    pub fn from_parts(instance: I, cfg: InstanceConfig<I::Engine>) -> (d: Self)
        ensures
            d.spec_state() is Created,
            d.spec_pid() is None,
            d.spec_instance() == instance,
            d.spec_config() == &cfg,
    {
        InstanceData { instance, cfg, pid: None, state: TaskState::Created }
    }

    /// The wrapped instance.
    pub fn instance(&self) -> (r: &I)
        ensures
            *r == self.spec_instance(),
    {
        &self.instance
    }

    /// The pid, once the task has started.
    pub fn pid(&self) -> (r: Option<u32>)
        ensures
            r == self.spec_pid(),
    {
        self.pid
    }

    /// The configuration the task was created with.
    pub fn config(&self) -> (r: &InstanceConfig<I::Engine>)
        ensures
            r == self.spec_config(),
    {
        &self.cfg
    }

    /// Starts the task: legal only from `Created`. On success the pid is
    /// latched and the task is `Running`; if the instance fails to start
    /// the task is `Exited`.
    pub fn start(&mut self) -> (r: Result<u32, Error>)
        ensures
            !(old(self).spec_state() is Created) ==> {
                &&& r matches Err(e) && e is FailedPrecondition
                &&& *final(self) == *old(self)
            },
            old(self).spec_state() is Created && r is Ok ==> {
                &&& final(self).spec_state() is Running
                &&& final(self).spec_pid() == Some(r->Ok_0)
            },
            old(self).spec_state() is Created && r is Err ==> {
                &&& final(self).spec_state() is Exited
                &&& final(self).spec_pid() == old(self).spec_pid()
            },
            old(self).spec_instance().exit_result() is Some ==> final(self).spec_instance().exit_result()
                == old(self).spec_instance().exit_result(),
            final(self).spec_config() == old(self).spec_config(),
    {
        match self.state.start() {
            Ok(()) => {},
            Err(e) => {
                return Err(e);
            },
        }
        let res = self.instance.start();
        match res {
            Ok(pid) => {
                self.pid = Some(pid);
                let _ = self.state.started();
                Ok(pid)
            },
            Err(e) => {
                let _ = self.state.stop();
                Err(e)
            },
        }
    }

    /// Sends a signal: accepted only while `Running`; the state machine
    /// is unchanged and the signal goes to the instance, which rejects
    /// an invalid signal number as an invalid argument.
    pub fn kill(&mut self, signal: u32) -> (r: Result<(), Error>)
        ensures
            final(self).spec_state() == old(self).spec_state(),
            final(self).spec_pid() == old(self).spec_pid(),
            old(self).spec_state() is Running && !spec_valid_signal(signal) ==> {
                &&& r matches Err(e) && e is InvalidArgument
                &&& final(self).spec_instance().exit_result() == old(self).spec_instance().exit_result()
            },
            !(old(self).spec_state() is Running) ==> {
                &&& r matches Err(e) && e is FailedPrecondition
                &&& *final(self) == *old(self)
            },
            old(self).spec_instance().exit_result() is Some ==> final(self).spec_instance().exit_result()
                == old(self).spec_instance().exit_result(),
            final(self).spec_config() == old(self).spec_config(),
    {
        match self.state.kill() {
            Ok(()) => {},
            Err(e) => {
                return Err(e);
            },
        }
        self.instance.kill(signal)
    }

    /// Deletes the task: legal only from `Created` or `Exited`. If the
    /// instance fails to delete, the task is parked in `Exited` so it
    /// cannot get stuck in `Deleting`.
    pub fn delete(&mut self) -> (r: Result<(), Error>)
        ensures
            !(old(self).spec_state() is Created || old(self).spec_state() is Exited) ==> {
                &&& r matches Err(e) && e is FailedPrecondition
                &&& *final(self) == *old(self)
            },
            (old(self).spec_state() is Created || old(self).spec_state() is Exited) && r is Ok
                ==> final(self).spec_state() is Deleting,
            (old(self).spec_state() is Created || old(self).spec_state() is Exited) && r is Err
                ==> final(self).spec_state() is Exited,
            final(self).spec_pid() == old(self).spec_pid(),
            final(self).spec_instance().exit_result() == old(self).spec_instance().exit_result(),
            final(self).spec_config() == old(self).spec_config(),
    {
        match self.state.delete() {
            Ok(()) => {},
            Err(e) => {
                return Err(e);
            },
        }
        let res = self.instance.delete();
        if res.is_err() {
            let _ = self.state.stop();
        }
        res
    }

    /// The exit code and time of the exited task; records the exit in the
    /// state machine. A caller that cannot yet show the exit polls
    /// `try_wait` instead.
    pub fn wait(&mut self) -> (r: (u32, Timestamp))
        requires
            old(self).spec_instance().exit_result() is Some,
        ensures
            r == old(self).spec_instance().exit_result()->0,
            final(self).spec_state() is Exited,
            final(self).spec_pid() == old(self).spec_pid(),
            final(self).spec_instance() == old(self).spec_instance(),
            final(self).spec_config() == old(self).spec_config(),
    {
        let res = self.instance.wait();
        self.state = TaskState::Exited;
        res
    }

    /// A non-blocking peek at the exit state.
    pub fn try_wait(&self) -> (r: Option<(u32, Timestamp)>)
        ensures
            r == self.spec_instance().exit_result(),
    {
        self.instance.try_wait()
    }
}

} // verus!
