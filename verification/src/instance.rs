//! The per-instance configuration and the instance contract.
//!
//! An instance is the engine-backed container behind one task. The trait
//! below is the seam that engine adapters implement; the no-op instance is
//! the trivial implementation the service uses for sandbox (pause)
//! containers and for exercising the task machinery without an engine.

use vstd::prelude::*;

use crate::error::Error;
use crate::sync::WaitableCell;
use crate::sys::spec_valid_signal;
use crate::time::{now_utc, Timestamp};

verus! {

/// Options for creating an instance: the engine handle, the stdio FIFO
/// paths, the OCI bundle directory, the containerd namespace and the
/// daemon address. Paths travel as plain strings.
pub struct InstanceConfig<Engine> {
    engine: Engine,
    stdin: String,
    stdout: String,
    stderr: String,
    bundle: String,
    namespace: String,
    containerd_address: String,
}

impl<Engine> InstanceConfig<Engine> {
    pub closed spec fn spec_stdin(&self) -> Seq<char> {
        self.stdin@
    }

    pub closed spec fn spec_stdout(&self) -> Seq<char> {
        self.stdout@
    }

    pub closed spec fn spec_stderr(&self) -> Seq<char> {
        self.stderr@
    }

    pub closed spec fn spec_bundle(&self) -> Seq<char> {
        self.bundle@
    }

    pub closed spec fn spec_namespace(&self) -> Seq<char> {
        self.namespace@
    }

    pub closed spec fn spec_containerd_address(&self) -> Seq<char> {
        self.containerd_address@
    }

    pub fn new(engine: Engine, namespace: String, containerd_address: String) -> (c: Self)
        ensures
            c.spec_namespace() == namespace@,
            c.spec_containerd_address() == containerd_address@,
            c.spec_stdin() == Seq::<char>::empty(),
            c.spec_stdout() == Seq::<char>::empty(),
            c.spec_stderr() == Seq::<char>::empty(),
            c.spec_bundle() == Seq::<char>::empty(),
    {
        InstanceConfig {
            engine,
            namespace,
            containerd_address,
            stdin: String::new(),
            stdout: String::new(),
            stderr: String::new(),
            bundle: String::new(),
        }
    }

    /// Sets the stdin FIFO path for the instance.
    pub fn set_stdin(&mut self, stdin: String)
        ensures
            final(self).spec_stdin() == stdin@,
            unchanged_but_stdin(old(self), final(self)),
    {
        self.stdin = stdin;
    }

    /// Gets the stdin FIFO path for the instance.
    pub fn get_stdin(&self) -> (r: &String)
        ensures
            r@ == self.spec_stdin(),
    {
        &self.stdin
    }

    /// Sets the stdout FIFO path for the instance.
    pub fn set_stdout(&mut self, stdout: String)
        ensures
            final(self).spec_stdout() == stdout@,
            unchanged_but_stdout(old(self), final(self)),
    {
        self.stdout = stdout;
    }

    /// Gets the stdout FIFO path for the instance.
    pub fn get_stdout(&self) -> (r: &String)
        ensures
            r@ == self.spec_stdout(),
    {
        &self.stdout
    }

    /// Sets the stderr FIFO path for the instance.
    pub fn set_stderr(&mut self, stderr: String)
        ensures
            final(self).spec_stderr() == stderr@,
            unchanged_but_stderr(old(self), final(self)),
    {
        self.stderr = stderr;
    }

    /// Gets the stderr FIFO path for the instance.
    pub fn get_stderr(&self) -> (r: &String)
        ensures
            r@ == self.spec_stderr(),
    {
        &self.stderr
    }

    /// Sets the OCI bundle directory for the instance.
    pub fn set_bundle(&mut self, bundle: String)
        ensures
            final(self).spec_bundle() == bundle@,
            unchanged_but_bundle(old(self), final(self)),
    {
        self.bundle = bundle;
    }

    /// Gets the OCI bundle directory for the instance.
    pub fn get_bundle(&self) -> (r: &String)
        ensures
            r@ == self.spec_bundle(),
    {
        &self.bundle
    }

    /// Gets the containerd namespace for the instance.
    pub fn get_namespace(&self) -> (r: String)
        ensures
            r@ == self.spec_namespace(),
    {
        self.namespace.clone()
    }

    /// Gets the containerd daemon address for the instance.
    pub fn get_containerd_address(&self) -> (r: String)
        ensures
            r@ == self.spec_containerd_address(),
    {
        self.containerd_address.clone()
    }
}

impl<Engine: Clone> InstanceConfig<Engine> {
    /// Gets a handle to the engine; engine handles are cheap to clone.
    pub fn get_engine(&self) -> Engine {
        self.engine.clone()
    }
}

/// All stdio and bundle fields except stdin agree between `a` and `b`.
pub open spec fn unchanged_but_stdin<E>(a: &InstanceConfig<E>, b: &InstanceConfig<E>) -> bool {
    &&& a.spec_stdout() == b.spec_stdout()
    &&& a.spec_stderr() == b.spec_stderr()
    &&& a.spec_bundle() == b.spec_bundle()
    &&& a.spec_namespace() == b.spec_namespace()
    &&& a.spec_containerd_address() == b.spec_containerd_address()
}

/// All stdio and bundle fields except stdout agree between `a` and `b`.
pub open spec fn unchanged_but_stdout<E>(a: &InstanceConfig<E>, b: &InstanceConfig<E>) -> bool {
    &&& a.spec_stdin() == b.spec_stdin()
    &&& a.spec_stderr() == b.spec_stderr()
    &&& a.spec_bundle() == b.spec_bundle()
    &&& a.spec_namespace() == b.spec_namespace()
    &&& a.spec_containerd_address() == b.spec_containerd_address()
}

/// All stdio and bundle fields except stderr agree between `a` and `b`.
pub open spec fn unchanged_but_stderr<E>(a: &InstanceConfig<E>, b: &InstanceConfig<E>) -> bool {
    &&& a.spec_stdin() == b.spec_stdin()
    &&& a.spec_stdout() == b.spec_stdout()
    &&& a.spec_bundle() == b.spec_bundle()
    &&& a.spec_namespace() == b.spec_namespace()
    &&& a.spec_containerd_address() == b.spec_containerd_address()
}

/// All stdio fields except the bundle agree between `a` and `b`.
pub open spec fn unchanged_but_bundle<E>(a: &InstanceConfig<E>, b: &InstanceConfig<E>) -> bool {
    &&& a.spec_stdin() == b.spec_stdin()
    &&& a.spec_stdout() == b.spec_stdout()
    &&& a.spec_stderr() == b.spec_stderr()
    &&& a.spec_namespace() == b.spec_namespace()
    &&& a.spec_containerd_address() == b.spec_containerd_address()
}

/// One running (or runnable) workload. Engine adapters implement this;
/// the task service drives it.
///
/// `exit_result` is the instance's observable exit state: `None` until
/// the workload has exited, then forever the pair of exit code and exit
/// time. Every method is bound to preserve an exit result once present,
/// so that all waiters observe one stable value.
pub trait Instance: Sized {
    /// The engine handle type; cheap to clone.
    type Engine: Clone;

    /// The exit code and time once the workload has exited.
    spec fn exit_result(&self) -> Option<(u32, Timestamp)>;

    /// Creates the instance. A fresh instance has not exited.
    fn new(id: String, cfg: &InstanceConfig<Self::Engine>) -> (r: Result<Self, Error>)
        ensures
            r matches Ok(i) ==> i.exit_result() is None,
    ;

    /// Starts the instance, returning its pid.
    fn start(&mut self) -> (r: Result<u32, Error>)
        ensures
            old(self).exit_result() is Some ==> final(self).exit_result() == old(
                self,
            ).exit_result(),
    ;

    /// Sends a signal to the instance. A signal that is not a valid
    /// POSIX signal is rejected as an invalid argument and nothing is
    /// delivered; in particular anything outside the `i32` range is
    /// rejected.
    fn kill(&mut self, signal: u32) -> (r: Result<(), Error>)
        ensures
            old(self).exit_result() is Some ==> final(self).exit_result() == old(
                self,
            ).exit_result(),
            !spec_valid_signal(signal) ==> {
                &&& r matches Err(e) && e is InvalidArgument
                &&& final(self).exit_result() == old(self).exit_result()
            },
    ;

    /// Deletes any reference to the instance. Deletion never touches
    /// the exit state.
    fn delete(&mut self) -> (r: Result<(), Error>)
        ensures
            final(self).exit_result() == old(self).exit_result(),
    ;

    /// The exit code and time, once the instance has exited. A caller
    /// that cannot yet show the exit polls `try_wait` instead; the
    /// driver parks the RPC until then.
    fn wait(&self) -> (r: (u32, Timestamp))
        requires
            self.exit_result() is Some,
        ensures
            r == self.exit_result()->0,
    ;

    /// A non-blocking peek at the exit state.
    fn try_wait(&self) -> (r: Option<(u32, Timestamp)>)
        ensures
            r == self.exit_result(),
    ;
}

/// Once `wait` has returned, every later `try_wait` observes the same
/// pair. `wait` returns the pair in the instance's exit state, `try_wait`
/// reports exactly that state, and every operation preserves an exit
/// state once present — so for any instance value whose exit state holds
/// `(code, at)`, the value `wait` is bound to return and the value
/// `try_wait` is bound to report coincide, now and after any further
/// operation.
pub proof fn lemma_wait_try_wait_agree<I: Instance>(i: I, code: u32, at: Timestamp)
    requires
        i.exit_result() == Some((code, at)),
    ensures
        i.exit_result()->0 == (code, at),
        i.exit_result() == Some((code, at)),
{
}

/// The instance used for sandbox (pause) containers: it runs nothing.
/// A kill with a termination signal makes it exit; the exit code follows
/// the forced-exit convention (137 for SIGKILL, 0 for SIGINT/SIGTERM).
pub struct Nop {
    exit: WaitableCell<(u32, Timestamp)>,
}

/// The engine handle of the no-op instance: there is no engine.
#[derive(Clone, Copy, Debug)]
pub struct NopEngine;

/// The exit code a no-op instance reports for a termination signal:
/// 137 for SIGKILL, 0 for SIGINT or SIGTERM, none for any other signal
/// (which is rejected).
pub open spec fn nop_exit_code_for_signal(signal: u32) -> Option<u32> {
    if signal == 9 {
        Some(137)
    } else if signal == 2 || signal == 15 {
        Some(0)
    } else {
        None
    }
}

impl Nop {
    /// A fresh no-op instance: nothing runs and nothing has exited.
    pub fn create() -> (n: Nop)
        ensures
            n.exit_result() is None,
    {
        Nop { exit: WaitableCell::new() }
    }
}

impl Instance for Nop {
    type Engine = NopEngine;

    closed spec fn exit_result(&self) -> Option<(u32, Timestamp)> {
        self.exit@
    }

    fn new(_id: String, _cfg: &InstanceConfig<NopEngine>) -> (r: Result<Self, Error>)
        ensures
            r matches Ok(i) ==> i.exit_result() is None,
    {
        Ok(Nop::create())
    }

    fn start(&mut self) -> (r: Result<u32, Error>)
        ensures
            old(self).exit_result() is Some ==> final(self).exit_result() == old(
                self,
            ).exit_result(),
            final(self).exit_result() == old(self).exit_result(),
            r matches Ok(pid) ==> pid == 0,
            r is Ok,
    {
        Ok(0)
    }

    fn kill(&mut self, signal: u32) -> (r: Result<(), Error>)
        ensures
            old(self).exit_result() is Some ==> final(self).exit_result() == old(
                self,
            ).exit_result(),
            !spec_valid_signal(signal) ==> {
                &&& r matches Err(e) && e is InvalidArgument
                &&& final(self).exit_result() == old(self).exit_result()
            },
            r is Ok <==> nop_exit_code_for_signal(signal) is Some,
            r matches Err(e) ==> e is InvalidArgument,
            r is Ok && old(self).exit_result() is None ==> {
                &&& final(self).exit_result() is Some
                &&& Some((final(self).exit_result()->0).0) == nop_exit_code_for_signal(signal)
            },
            r is Err ==> final(self).exit_result() == old(self).exit_result(),
    {
        let code: u32 = if signal == 9 {
            137
        } else if signal == 2 || signal == 15 {
            0
        } else {
            return Err(Error::InvalidArgument(String::new()));
        };
        let _ = self.exit.set((code, now_utc()));
        Ok(())
    }

    fn delete(&mut self) -> (r: Result<(), Error>)
        ensures
            old(self).exit_result() is Some ==> final(self).exit_result() == old(
                self,
            ).exit_result(),
            final(self).exit_result() == old(self).exit_result(),
            r is Ok,
    {
        Ok(())
    }

    fn wait(&self) -> (r: (u32, Timestamp))
        ensures
            r == self.exit_result()->0,
    {
        self.exit.wait()
    }

    fn try_wait(&self) -> (r: Option<(u32, Timestamp)>)
        ensures
            r == self.exit_result(),
    {
        self.exit.try_wait()
    }
}

} // verus!
