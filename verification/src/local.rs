//! The in-process task service: a map from task id to instance data,
//! implementing the task RPC surface and recording lifecycle events.
//!
//! Event publishing is best-effort by construction: the service records
//! each event attempt together with the outcome the publisher reported,
//! and no RPC result depends on that outcome.

use vstd::prelude::*;

use crate::error::{spec_status_code, Code, Error, Status};
use crate::instance::{Instance, InstanceConfig, Nop};
use crate::instance_data::InstanceData;
use crate::instance_option::InstanceOption;
use crate::metrics::{get_metrics, Metrics};
use crate::oci::{amap_contains_key, cri_sandbox_key, spec_cri_sandbox_create, OciSpec};
use crate::sys::spec_valid_signal;
use crate::time::Timestamp;

verus! {

/// One rootfs mount carried by a create request.
#[derive(Debug)]
pub struct Mount {
    pub mount_type: String,
    pub source: String,
    pub target: String,
    pub options: Vec<String>,
}

#[derive(Debug)]
pub struct CreateTaskRequest {
    pub id: String,
    pub bundle: String,
    pub terminal: bool,
    pub checkpoint: String,
    pub parent_checkpoint: String,
    pub stdin: String,
    pub stdout: String,
    pub stderr: String,
    pub rootfs: Vec<Mount>,
}

#[derive(Debug)]
pub struct CreateTaskResponse {
    pub pid: u32,
}

#[derive(Debug)]
pub struct StartRequest {
    pub id: String,
    pub exec_id: String,
}

#[derive(Debug)]
pub struct StartResponse {
    pub pid: u32,
}

#[derive(Debug)]
pub struct KillRequest {
    pub id: String,
    pub exec_id: String,
    pub signal: u32,
}

#[derive(Debug)]
pub struct DeleteRequest {
    pub id: String,
    pub exec_id: String,
}

#[derive(Debug)]
pub struct DeleteResponse {
    pub pid: u32,
    pub exit_status: u32,
    pub exited_at: Option<Timestamp>,
}

#[derive(Debug)]
pub struct WaitRequest {
    pub id: String,
    pub exec_id: String,
}

#[derive(Debug)]
pub struct WaitResponse {
    pub exit_status: u32,
    pub exited_at: Timestamp,
}

#[derive(Debug)]
pub struct StateRequest {
    pub id: String,
    pub exec_id: String,
}

/// The externally visible status of a task, derived from its pid latch
/// and exit cell: no pid means created, a pid without an exit means
/// running, an exit means stopped.
#[derive(Clone, Copy, Debug, PartialEq, Eq, Structural)]
pub enum TaskStatus {
    Created,
    Running,
    Stopped,
}

#[derive(Debug)]
pub struct StateResponse {
    pub bundle: String,
    pub stdin: String,
    pub stdout: String,
    pub stderr: String,
    pub pid: u32,
    pub exit_status: u32,
    pub exited_at: Option<Timestamp>,
    pub status: TaskStatus,
}

/// The status a task reports, as a function of its pid latch and exit cell.
pub open spec fn spec_task_status(pid: Option<u32>, exit: Option<(u32, Timestamp)>) -> TaskStatus {
    if pid is None {
        TaskStatus::Created
    } else if exit is None {
        TaskStatus::Running
    } else {
        TaskStatus::Stopped
    }
}

#[derive(Debug)]
pub struct StatsRequest {
    pub id: String,
}

#[derive(Debug)]
pub struct StatsResponse {
    pub stats: Option<Metrics>,
}

#[derive(Debug)]
pub struct ConnectRequest {
    pub id: String,
}

#[derive(Debug)]
pub struct ConnectResponse {
    pub shim_pid: u32,
    pub task_pid: u32,
}

#[derive(Debug)]
pub struct ShutdownRequest {
    pub id: String,
    pub now: bool,
}

/// What a shutdown request does to the server.
#[derive(Clone, Copy, Debug, PartialEq, Eq, Structural)]
pub enum ShutdownAction {
    /// Tasks remain; the server keeps serving.
    Ignore,
    /// The server drains and stops.
    Graceful,
    /// The server stops at once.
    Terminate,
}

/// A lifecycle event mirrored to the daemon.
#[derive(Debug)]
pub enum Event {
    TaskCreate {
        container_id: String,
        bundle: String,
        rootfs: Vec<Mount>,
        stdin: String,
        stdout: String,
        stderr: String,
    },
    TaskStart { container_id: String, pid: u32 },
    TaskExit {
        container_id: String,
        id: String,
        pid: u32,
        exit_status: u32,
        exited_at: Timestamp,
    },
    TaskDelete {
        container_id: String,
        pid: u32,
        exit_status: u32,
        exited_at: Option<Timestamp>,
    },
}

/// The result of an RPC whose completion awaits the task's exit.
#[derive(Debug)]
pub enum Poll<T> {
    Ready(T),
    Pending,
}

/// Whether an id is present among the entries.
pub open spec fn has_id<I: Instance>(s: Seq<(String, InstanceData<I>)>, id: Seq<char>) -> bool {
    exists|j: int| 0 <= j < s.len() && #[trigger] s[j].0@ == id
}

/// All entries carry distinct ids.
pub open spec fn ids_unique<I: Instance>(s: Seq<(String, InstanceData<I>)>) -> bool {
    forall|j: int, k: int|
        0 <= j < k < s.len() ==> #[trigger] s[j].0@ != #[trigger] s[k].0@
}

/// The index of the entry with the given id.
pub open spec fn idx_of<I: Instance>(s: Seq<(String, InstanceData<I>)>, id: Seq<char>) -> int {
    choose|j: int| 0 <= j < s.len() && #[trigger] s[j].0@ == id
}

/// With unique ids, the entry found at any position with a matching id is
/// the one `idx_of` denotes.
pub proof fn lemma_idx_of<I: Instance>(s: Seq<(String, InstanceData<I>)>, id: Seq<char>, i: int)
    requires
        ids_unique(s),
        0 <= i < s.len(),
        s[i].0@ == id,
    ensures
        idx_of(s, id) == i,
        has_id(s, id),
{
    assert(0 <= i < s.len() && s[i].0@ == id);
    let j = idx_of(s, id);
    if j != i {
        if j < i {
            assert(s[j].0@ != s[i].0@);
        } else {
            assert(s[i].0@ != s[j].0@);
        }
    }
}

/// Whether a string is empty.
fn str_is_empty(s: &String) -> (r: bool)
    ensures
        r == (s@.len() == 0),
{
    s.as_str().is_empty()
}

/// The reason a create request is rejected before any instance is built,
/// as the RPC code the caller sees: checkpoints are unimplemented, a
/// terminal, a duplicate id, a spec that failed to load and a spec
/// without a rootfs are invalid.
pub open spec fn spec_create_err<I: Instance>(
    s: Seq<(String, InstanceData<I>)>,
    req: &CreateTaskRequest,
    ospec: &Option<OciSpec>,
) -> Option<Code> {
    if req.checkpoint@.len() > 0 || req.parent_checkpoint@.len() > 0 {
        Some(Code::Unimplemented)
    } else if req.terminal {
        Some(Code::InvalidArgument)
    } else if has_id(s, req.id@) {
        Some(Code::AlreadyExists)
    } else if ospec is None {
        Some(Code::InvalidArgument)
    } else if ospec->0.root is None {
        Some(Code::InvalidArgument)
    } else {
        None
    }
}

/// The local task service: the id-to-instance map, the engine handle the
/// instances are created with, the namespace and daemon address, and the
/// log of attempted event publishes with the outcome each one reported.
/// Each entry holds either a real engine-backed instance or, for the
/// pod's sandbox (pause) container, the no-op instance.
pub struct Local<I: Instance> {
    engine: I::Engine,
    instances: Vec<(String, InstanceData<InstanceOption<I>>)>,
    events: Vec<(Event, bool)>,
    namespace: String,
    containerd_address: String,
}

impl<I: Instance> Local<I> {
    pub closed spec fn spec_instances(&self) -> Seq<(String, InstanceData<InstanceOption<I>>)> {
        self.instances@
    }

    pub closed spec fn spec_events(&self) -> Seq<(Event, bool)> {
        self.events@
    }

    pub closed spec fn spec_namespace(&self) -> Seq<char> {
        self.namespace@
    }

    pub closed spec fn spec_containerd_address(&self) -> Seq<char> {
        self.containerd_address@
    }

    /// The service invariant: ids in the map are unique.
    pub open spec fn wf(&self) -> bool {
        ids_unique(self.spec_instances())
    }

    /// Everything except the task map and the event log is unchanged.
    pub open spec fn same_service(&self, other: &Self) -> bool {
        &&& self.spec_namespace() == other.spec_namespace()
        &&& self.spec_containerd_address() == other.spec_containerd_address()
    }

    /// Creates a new local task service with an empty map and log.
    pub fn new(engine: I::Engine, namespace: String, containerd_address: String) -> (r: Self)
        ensures
            r.wf(),
            r.spec_instances() == Seq::<(String, InstanceData<InstanceOption<I>>)>::empty(),
            r.spec_events() == Seq::<(Event, bool)>::empty(),
            r.spec_namespace() == namespace@,
            r.spec_containerd_address() == containerd_address@,
    {
        Local {
            engine,
            instances: Vec::new(),
            events: Vec::new(),
            namespace,
            containerd_address,
        }
    }

    /// The position of the entry for `id`, if one exists.
    fn find_index(&self, id: &String) -> (r: Option<usize>)
        requires
            self.wf(),
        ensures
            r matches Some(i) ==> {
                &&& 0 <= i < self.spec_instances().len()
                &&& self.spec_instances()[i as int].0@ == id@
                &&& has_id(self.spec_instances(), id@)
                &&& idx_of(self.spec_instances(), id@) == i
            },
            r is None ==> !has_id(self.spec_instances(), id@),
    {
        let n = self.instances.len();
        let mut i: usize = 0;
        while i < n
            invariant
                self.wf(),
                n == self.spec_instances().len(),
                0 <= i <= n,
                forall|j: int| 0 <= j < i ==> #[trigger] self.spec_instances()[j].0@ != id@,
            decreases n - i,
        {
            if self.instances[i].0 == *id {
                proof {
                    lemma_idx_of(self.spec_instances(), id@, i as int);
                }
                return Some(i);
            }
            i += 1;
        }
        None
    }

    /// Whether a task with this id exists.
    pub fn has_instance(&self, id: &String) -> (r: bool)
        requires
            self.wf(),
        ensures
            r == has_id(self.spec_instances(), id@),
    {
        self.find_index(id).is_some()
    }

    /// Whether the task map is empty.
    pub fn is_empty(&self) -> (r: bool)
        ensures
            r == (self.spec_instances().len() == 0),
    {
        self.instances.len() == 0
    }

    /// The instance data registered under `id`.
    pub fn get_instance(&self, id: &String) -> (r: Result<
        &InstanceData<InstanceOption<I>>,
        Error,
    >)
        requires
            self.wf(),
        ensures
            r is Ok <==> has_id(self.spec_instances(), id@),
            r matches Ok(d) ==> d == &self.spec_instances()[idx_of(self.spec_instances(), id@)].1,
            r matches Err(e) ==> e is NotFound && e->NotFound_0@ == id@,
    {
        match self.find_index(id) {
            Some(i) => Ok(&self.instances[i].1),
            None => Err(Error::NotFound(id.clone())),
        }
    }

    /// The instance configuration every new task starts from: the shared
    /// engine handle, this service's namespace and daemon address, and
    /// empty stdio and bundle paths.
    pub fn instance_config(&self) -> (c: InstanceConfig<I::Engine>)
        ensures
            c.spec_namespace() == self.spec_namespace(),
            c.spec_containerd_address() == self.spec_containerd_address(),
            c.spec_stdin() == Seq::<char>::empty(),
            c.spec_stdout() == Seq::<char>::empty(),
            c.spec_stderr() == Seq::<char>::empty(),
            c.spec_bundle() == Seq::<char>::empty(),
    {
        InstanceConfig::new(
            self.engine.clone(),
            self.namespace.clone(),
            self.containerd_address.clone(),
        )
    }

    /// Creates a task: checkpoints are unsupported, terminal mode is
    /// rejected, ids must be fresh, and the loaded spec must declare a
    /// rootfs. On success the new entry is `Created` with no pid and no
    /// exit, and a `TaskCreate` event is recorded. The first create in
    /// an empty service whose spec carries the CRI sandbox annotation is
    /// the pod's pause container and gets the no-op instance, which
    /// always succeeds; every other create builds a real instance.
    /// `spec` is the runtime spec the driver loaded from the bundle
    /// (`None` when loading or canonicalising failed); `shim_pid` is
    /// this process's pid, echoed in the response; `publish_ok` is the
    /// outcome the event publisher reported, which never influences the
    /// result.
    pub fn task_create(
        &mut self,
        req: CreateTaskRequest,
        spec: Option<OciSpec>,
        shim_pid: u32,
        publish_ok: bool,
    ) -> (r: Result<CreateTaskResponse, Error>)
        requires
            old(self).wf(),
        ensures
            final(self).wf(),
            final(self).same_service(old(self)),
            spec_create_err(old(self).spec_instances(), &req, &spec) matches Some(c) ==> {
                &&& r matches Err(e) && spec_status_code(&e) == c
                &&& *final(self) == *old(self)
            },
            spec_create_err(old(self).spec_instances(), &req, &spec) == Some(Code::AlreadyExists)
                ==> (r matches Err(e) && e is AlreadyExists && e->AlreadyExists_0@ == req.id@),
            r is Ok ==> spec_create_err(old(self).spec_instances(), &req, &spec) is None,
            spec_create_err(old(self).spec_instances(), &req, &spec) is None && r is Err
                ==> *final(self) == *old(self),
            spec_create_err(old(self).spec_instances(), &req, &spec) is None && (
            spec matches Some(sp) && spec_cri_sandbox_create(
                sp.annotations@,
                old(self).spec_instances().len() as int,
            )) ==> r is Ok,
            r matches Ok(resp) ==> {
                let oi = old(self).spec_instances();
                let fi = final(self).spec_instances();
                let oe = old(self).spec_events();
                let fe = final(self).spec_events();
                &&& resp.pid == shim_pid
                &&& fi.len() == oi.len() + 1
                &&& (forall|j: int| 0 <= j < oi.len() ==> #[trigger] fi[j] == oi[j])
                &&& fi[oi.len() as int].0@ == req.id@
                &&& fi[oi.len() as int].1.spec_state() is Created
                &&& fi[oi.len() as int].1.spec_pid() is None
                &&& fi[oi.len() as int].1.spec_instance().exit_result() is None
                &&& (fi[oi.len() as int].1.spec_instance() is Nop <==> (spec matches Some(sp)
                    && spec_cri_sandbox_create(sp.annotations@, oi.len() as int)))
                &&& !(fi[oi.len() as int].1.spec_instance() is Nop) ==> fi[oi.len() as int].1
                    .spec_instance() is Instance
                &&& fi[oi.len() as int].1.spec_config().spec_bundle() == req.bundle@
                &&& fi[oi.len() as int].1.spec_config().spec_stdin() == req.stdin@
                &&& fi[oi.len() as int].1.spec_config().spec_stdout() == req.stdout@
                &&& fi[oi.len() as int].1.spec_config().spec_stderr() == req.stderr@
                &&& fi[oi.len() as int].1.spec_config().spec_namespace() == old(
                    self,
                ).spec_namespace()
                &&& fe.len() == oe.len() + 1
                &&& (forall|j: int| 0 <= j < oe.len() ==> #[trigger] fe[j] == oe[j])
                &&& fe.last().1 == publish_ok
                &&& fe.last().0 matches Event::TaskCreate {
                    container_id,
                    bundle,
                    rootfs,
                    stdin,
                    stdout,
                    stderr,
                } && container_id@ == req.id@ && bundle@ == req.bundle@ && rootfs == req.rootfs
                    && stdin@ == req.stdin@ && stdout@ == req.stdout@ && stderr@ == req.stderr@
            },
    {
        if !str_is_empty(&req.checkpoint) || !str_is_empty(&req.parent_checkpoint) {
            return Err(Error::Ttrpc(Status::unimplemented("checkpoint is not supported".to_owned())));
        }
        if req.terminal {
            return Err(Error::Ttrpc(Status::invalid_argument("terminal is not supported".to_owned())));
        }
        if self.has_instance(&req.id) {
            return Err(Error::AlreadyExists(req.id));
        }
        let loaded = match spec {
            Some(s) => s,
            None => {
                return Err(Error::InvalidArgument("could not load runtime spec".to_owned()));
            },
        };
        if loaded.root.is_none() {
            return Err(Error::InvalidArgument("rootfs is not set in runtime spec".to_owned()));
        }
        let no_tasks_yet = self.instances.len() == 0;
        let sandbox = no_tasks_yet && amap_contains_key(&loaded.annotations, &cri_sandbox_key());
        proof {
            assert(spec == Some(loaded));
            assert(sandbox == spec_cri_sandbox_create(
                loaded.annotations@,
                old(self).spec_instances().len() as int,
            ));
        }
        let mut cfg = self.instance_config();
        cfg.set_bundle(req.bundle.clone());
        cfg.set_stdin(req.stdin.clone());
        cfg.set_stdout(req.stdout.clone());
        cfg.set_stderr(req.stderr.clone());
        let data = if sandbox {
            InstanceData::from_parts(InstanceOption::Nop(Nop::create()), cfg)
        } else {
            let inst = match <InstanceOption<I> as Instance>::new(req.id.clone(), &cfg) {
                Ok(i) => i,
                Err(e) => {
                    return Err(e);
                },
            };
            InstanceData::from_parts(inst, cfg)
        };
        let ghost oi = self.instances@;
        self.instances.push((req.id.clone(), data));
        proof {
            assert forall|j: int, k: int| 0 <= j < k < self.instances@.len() implies #[trigger] self
                .instances@[j].0@ != #[trigger] self.instances@[k].0@ by {
                if k < oi.len() {
                    assert(oi[j].0@ != oi[k].0@);
                } else {
                    assert(self.instances@[j].0@ == oi[j].0@);
                }
            }
        }
        self.publish(
            Event::TaskCreate {
                container_id: req.id,
                bundle: req.bundle,
                rootfs: req.rootfs,
                stdin: req.stdin,
                stdout: req.stdout,
                stderr: req.stderr,
            },
            publish_ok,
        );
        Ok(CreateTaskResponse { pid: shim_pid })
    }

    /// Records one event attempt and the outcome the publisher reported.
    /// Recording cannot fail and touches nothing but the log: a failed
    /// publish is merely remembered, never surfaced.
    fn publish(&mut self, event: Event, delivered: bool)
        ensures
            final(self).spec_events() == old(self).spec_events().push((event, delivered)),
            final(self).spec_instances() == old(self).spec_instances(),
            final(self).same_service(old(self)),
    {
        self.events.push((event, delivered));
    }

    /// Starts a task: exec is unsupported, the id must be present and the
    /// task must still be `Created`. On success the pid is reported and a
    /// `TaskStart` event is recorded; if the instance fails to start the
    /// task is `Exited`.
    pub fn task_start(&mut self, req: StartRequest, publish_ok: bool) -> (r: Result<
        StartResponse,
        Error,
    >)
        requires
            old(self).wf(),
        ensures
            final(self).wf(),
            final(self).same_service(old(self)),
            req.exec_id@.len() > 0 ==> {
                &&& r matches Err(e) && spec_status_code(&e) == Code::Unimplemented
                &&& *final(self) == *old(self)
            },
            req.exec_id@.len() == 0 && !has_id(old(self).spec_instances(), req.id@) ==> {
                &&& r matches Err(e) && e is NotFound && e->NotFound_0@ == req.id@
                &&& *final(self) == *old(self)
            },
            req.exec_id@.len() == 0 && has_id(old(self).spec_instances(), req.id@) ==> {
                let oi = old(self).spec_instances();
                let fi = final(self).spec_instances();
                let oe = old(self).spec_events();
                let fe = final(self).spec_events();
                let i = idx_of(oi, req.id@);
                &&& fi.len() == oi.len()
                &&& (forall|j: int| 0 <= j < oi.len() && j != i ==> #[trigger] fi[j] == oi[j])
                &&& fi[i].0@ == req.id@
                &&& fi[i].1.spec_config() == oi[i].1.spec_config()
                &&& !(oi[i].1.spec_state() is Created) ==> {
                    &&& r matches Err(e) && e is FailedPrecondition
                    &&& fi[i].1 == oi[i].1
                    &&& fe == oe
                }
                &&& oi[i].1.spec_state() is Created ==> (r matches Ok(resp) ==> {
                    &&& fi[i].1.spec_state() is Running
                    &&& fi[i].1.spec_pid() == Some(resp.pid)
                    &&& fe.len() == oe.len() + 1
                    &&& (forall|j: int| 0 <= j < oe.len() ==> #[trigger] fe[j] == oe[j])
                    &&& fe.last().1 == publish_ok
                    &&& fe.last().0 matches Event::TaskStart { container_id, pid }
                        && container_id@ == req.id@ && pid == resp.pid
                })
                &&& oi[i].1.spec_state() is Created && r is Err ==> {
                    &&& fi[i].1.spec_state() is Exited
                    &&& fi[i].1.spec_pid() == oi[i].1.spec_pid()
                    &&& fe == oe
                }
                &&& oi[i].1.spec_instance().exit_result() is Some ==> fi[i].1.spec_instance()
                    .exit_result() == oi[i].1.spec_instance().exit_result()
            },
    {
        if !str_is_empty(&req.exec_id) {
            return Err(Error::Ttrpc(Status::unimplemented("exec is not supported".to_owned())));
        }
        let i = match self.find_index(&req.id) {
            Some(i) => i,
            None => {
                return Err(Error::NotFound(req.id));
            },
        };
        let ghost oi = self.instances@;
        let mut entry = self.instances.remove(i);
        let res = entry.1.start();
        self.instances.insert(i, entry);
        proof {
            lemma_update_entry(oi, self.instances@, i as int);
        }
        match res {
            Ok(pid) => {
                self.publish(Event::TaskStart { container_id: req.id, pid }, publish_ok);
                Ok(StartResponse { pid })
            },
            Err(e) => Err(e),
        }
    }

    /// Sends a signal to a task: exec is unsupported, the id must be
    /// present and the task must be `Running`.
    pub fn task_kill(&mut self, req: KillRequest) -> (r: Result<(), Error>)
        requires
            old(self).wf(),
        ensures
            final(self).wf(),
            final(self).same_service(old(self)),
            final(self).spec_events() == old(self).spec_events(),
            req.exec_id@.len() > 0 ==> {
                &&& r matches Err(e) && spec_status_code(&e) == Code::InvalidArgument
                &&& *final(self) == *old(self)
            },
            req.exec_id@.len() == 0 && !has_id(old(self).spec_instances(), req.id@) ==> {
                &&& r matches Err(e) && e is NotFound && e->NotFound_0@ == req.id@
                &&& *final(self) == *old(self)
            },
            req.exec_id@.len() == 0 && has_id(old(self).spec_instances(), req.id@) ==> {
                let oi = old(self).spec_instances();
                let fi = final(self).spec_instances();
                let i = idx_of(oi, req.id@);
                &&& fi.len() == oi.len()
                &&& (forall|j: int| 0 <= j < oi.len() && j != i ==> #[trigger] fi[j] == oi[j])
                &&& fi[i].0@ == req.id@
                &&& fi[i].1.spec_state() == oi[i].1.spec_state()
                &&& fi[i].1.spec_pid() == oi[i].1.spec_pid()
                &&& fi[i].1.spec_config() == oi[i].1.spec_config()
                &&& !(oi[i].1.spec_state() is Running) ==> (r matches Err(e)
                    && e is FailedPrecondition && fi[i].1 == oi[i].1)
                &&& oi[i].1.spec_state() is Running && !spec_valid_signal(req.signal) ==> (
                r matches Err(e) && e is InvalidArgument)
                &&& oi[i].1.spec_instance().exit_result() is Some ==> fi[i].1.spec_instance()
                    .exit_result() == oi[i].1.spec_instance().exit_result()
            },
    {
        if !str_is_empty(&req.exec_id) {
            return Err(Error::InvalidArgument("exec is not supported".to_owned()));
        }
        let i = match self.find_index(&req.id) {
            Some(i) => i,
            None => {
                return Err(Error::NotFound(req.id));
            },
        };
        let ghost oi = self.instances@;
        let mut entry = self.instances.remove(i);
        let res = entry.1.kill(req.signal);
        self.instances.insert(i, entry);
        proof {
            lemma_update_entry(oi, self.instances@, i as int);
        }
        res
    }

    /// Deletes a task: exec is unsupported, the id must be present and
    /// the task must be `Created` or `Exited`. On success the entry
    /// leaves the map, a `TaskDelete` event is recorded, and the response
    /// carries the pid and the exit snapshot (zero when absent).
    pub fn task_delete(&mut self, req: DeleteRequest, publish_ok: bool) -> (r: Result<
        DeleteResponse,
        Error,
    >)
        requires
            old(self).wf(),
        ensures
            final(self).wf(),
            final(self).same_service(old(self)),
            req.exec_id@.len() > 0 ==> {
                &&& r matches Err(e) && spec_status_code(&e) == Code::InvalidArgument
                &&& *final(self) == *old(self)
            },
            req.exec_id@.len() == 0 && !has_id(old(self).spec_instances(), req.id@) ==> {
                &&& r matches Err(e) && e is NotFound && e->NotFound_0@ == req.id@
                &&& *final(self) == *old(self)
            },
            req.exec_id@.len() == 0 && has_id(old(self).spec_instances(), req.id@) ==> {
                let oi = old(self).spec_instances();
                let fi = final(self).spec_instances();
                let oe = old(self).spec_events();
                let fe = final(self).spec_events();
                let i = idx_of(oi, req.id@);
                let d = oi[i].1;
                &&& r matches Ok(resp) ==> {
                    &&& d.spec_state() is Created || d.spec_state() is Exited
                    &&& fi.len() == oi.len() - 1
                    &&& (forall|j: int| 0 <= j < i ==> #[trigger] fi[j] == oi[j])
                    &&& (forall|j: int| i <= j < fi.len() ==> #[trigger] fi[j] == oi[j + 1])
                    &&& !has_id(fi, req.id@)
                    &&& (forall|k: Seq<char>|
                        k != req.id@ ==> (has_id(fi, k) <==> has_id(oi, k)))
                    &&& resp.pid == d.spec_pid().unwrap_or(0)
                    &&& resp.exit_status == (match d.spec_instance().exit_result() {
                        Some(e) => e.0,
                        None => 0,
                    })
                    &&& resp.exited_at == (match d.spec_instance().exit_result() {
                        Some(e) => Some(e.1),
                        None => None,
                    })
                    &&& fe.len() == oe.len() + 1
                    &&& (forall|j: int| 0 <= j < oe.len() ==> #[trigger] fe[j] == oe[j])
                    &&& fe.last().1 == publish_ok
                    &&& fe.last().0 matches Event::TaskDelete {
                        container_id,
                        pid,
                        exit_status,
                        exited_at,
                    } && container_id@ == req.id@ && pid == resp.pid && exit_status
                        == resp.exit_status && exited_at == resp.exited_at
                }
                &&& r is Err ==> {
                    &&& fe == oe
                    &&& fi.len() == oi.len()
                    &&& (forall|j: int| 0 <= j < oi.len() && j != i ==> #[trigger] fi[j] == oi[j])
                    &&& fi[i].0@ == req.id@
                    &&& !(d.spec_state() is Created || d.spec_state() is Exited) ==> (r matches Err(
                        e,
                    ) && e is FailedPrecondition && fi[i].1 == d)
                    &&& (d.spec_state() is Created || d.spec_state() is Exited) ==> fi[i].1
                        .spec_state() is Exited
                }
            },
    {
        if !str_is_empty(&req.exec_id) {
            return Err(Error::InvalidArgument("exec is not supported".to_owned()));
        }
        let i = match self.find_index(&req.id) {
            Some(i) => i,
            None => {
                return Err(Error::NotFound(req.id));
            },
        };
        let ghost oi = self.instances@;
        let mut entry = self.instances.remove(i);
        match entry.1.delete() {
            Ok(()) => {},
            Err(e) => {
                self.instances.insert(i, entry);
                proof {
                    lemma_update_entry(oi, self.instances@, i as int);
                }
                return Err(e);
            },
        }
        proof {
            lemma_remove_entry(oi, self.instances@, i as int);
        }
        let pid = match entry.1.pid() {
            Some(p) => p,
            None => 0,
        };
        let exit = entry.1.try_wait();
        let (exit_status, exited_at): (u32, Option<Timestamp>) = match exit {
            Some((code, t)) => (code, Some(t)),
            None => (0, None),
        };
        self.publish(
            Event::TaskDelete { container_id: req.id, pid, exit_status, exited_at },
            publish_ok,
        );
        Ok(DeleteResponse { pid, exit_status, exited_at })
    }

    /// Waits for a task to exit: exec is unsupported and the id must be
    /// present. Reports `Pending` while the task has not exited; once it
    /// has, records the exit in the state machine and reports the exit
    /// code and time.
    pub fn task_wait(&mut self, req: WaitRequest) -> (r: Result<Poll<WaitResponse>, Error>)
        requires
            old(self).wf(),
        ensures
            final(self).wf(),
            final(self).same_service(old(self)),
            final(self).spec_events() == old(self).spec_events(),
            req.exec_id@.len() > 0 ==> {
                &&& r matches Err(e) && spec_status_code(&e) == Code::InvalidArgument
                &&& *final(self) == *old(self)
            },
            req.exec_id@.len() == 0 && !has_id(old(self).spec_instances(), req.id@) ==> {
                &&& r matches Err(e) && e is NotFound && e->NotFound_0@ == req.id@
                &&& *final(self) == *old(self)
            },
            req.exec_id@.len() == 0 && has_id(old(self).spec_instances(), req.id@) ==> {
                let oi = old(self).spec_instances();
                let fi = final(self).spec_instances();
                let i = idx_of(oi, req.id@);
                let d = oi[i].1;
                &&& d.spec_instance().exit_result() is None ==> (r matches Ok(p) && p is Pending
                    && *final(self) == *old(self))
                &&& d.spec_instance().exit_result() matches Some(e) ==> {
                    &&& (r matches Ok(p) && p matches Poll::Ready(resp) && resp.exit_status
                        == e.0 && resp.exited_at == e.1)
                    &&& fi.len() == oi.len()
                    &&& (forall|j: int| 0 <= j < oi.len() && j != i ==> #[trigger] fi[j] == oi[j])
                    &&& fi[i].0@ == req.id@
                    &&& fi[i].1.spec_state() is Exited
                    &&& fi[i].1.spec_pid() == d.spec_pid()
                    &&& fi[i].1.spec_instance() == d.spec_instance()
                    &&& fi[i].1.spec_config() == d.spec_config()
                }
            },
    {
        if !str_is_empty(&req.exec_id) {
            return Err(Error::InvalidArgument("exec is not supported".to_owned()));
        }
        let i = match self.find_index(&req.id) {
            Some(i) => i,
            None => {
                return Err(Error::NotFound(req.id));
            },
        };
        if self.instances[i].1.try_wait().is_none() {
            return Ok(Poll::Pending);
        }
        let ghost oi = self.instances@;
        let mut entry = self.instances.remove(i);
        let (code, t) = entry.1.wait();
        self.instances.insert(i, entry);
        proof {
            lemma_update_entry(oi, self.instances@, i as int);
        }
        Ok(Poll::Ready(WaitResponse { exit_status: code, exited_at: t }))
    }

    /// Mirrors a task's exit to the daemon: once the task has exited,
    /// records the exit in the state machine and records a `TaskExit`
    /// event. The running service does this from a background task rooted
    /// at the service, so a client disconnect cannot cancel it.
    pub fn publish_exit_event(&mut self, id: &String, publish_ok: bool) -> (r: Result<
        Poll<()>,
        Error,
    >)
        requires
            old(self).wf(),
        ensures
            final(self).wf(),
            final(self).same_service(old(self)),
            !has_id(old(self).spec_instances(), id@) ==> {
                &&& r matches Err(e) && e is NotFound && e->NotFound_0@ == id@
                &&& *final(self) == *old(self)
            },
            has_id(old(self).spec_instances(), id@) ==> {
                let oi = old(self).spec_instances();
                let fi = final(self).spec_instances();
                let oe = old(self).spec_events();
                let fe = final(self).spec_events();
                let i = idx_of(oi, id@);
                let d = oi[i].1;
                &&& d.spec_instance().exit_result() is None ==> (r matches Ok(p) && p is Pending
                    && *final(self) == *old(self))
                &&& d.spec_instance().exit_result() matches Some(e) ==> {
                    &&& (r matches Ok(p) && p is Ready)
                    &&& fi.len() == oi.len()
                    &&& (forall|j: int| 0 <= j < oi.len() && j != i ==> #[trigger] fi[j] == oi[j])
                    &&& fi[i].0@ == id@
                    &&& fi[i].1.spec_state() is Exited
                    &&& fi[i].1.spec_pid() == d.spec_pid()
                    &&& fi[i].1.spec_instance() == d.spec_instance()
                    &&& fe.len() == oe.len() + 1
                    &&& (forall|j: int| 0 <= j < oe.len() ==> #[trigger] fe[j] == oe[j])
                    &&& fe.last().1 == publish_ok
                    &&& fe.last().0 matches Event::TaskExit {
                        container_id,
                        id: eid,
                        pid,
                        exit_status,
                        exited_at,
                    } && container_id@ == id@ && eid@ == id@ && pid == d.spec_pid().unwrap_or(0)
                        && exit_status == e.0 && exited_at == e.1
                }
            },
    {
        let i = match self.find_index(id) {
            Some(i) => i,
            None => {
                return Err(Error::NotFound(id.clone()));
            },
        };
        if self.instances[i].1.try_wait().is_none() {
            return Ok(Poll::Pending);
        }
        let ghost oi = self.instances@;
        let mut entry = self.instances.remove(i);
        let (code, t) = entry.1.wait();
        let pid = match entry.1.pid() {
            Some(p) => p,
            None => 0,
        };
        self.instances.insert(i, entry);
        proof {
            lemma_update_entry(oi, self.instances@, i as int);
        }
        self.publish(
            Event::TaskExit {
                container_id: id.clone(),
                id: id.clone(),
                pid,
                exit_status: code,
                exited_at: t,
            },
            publish_ok,
        );
        Ok(Poll::Ready(()))
    }

    /// Reports a task's state: the bundle and stdio paths it was created
    /// with, its pid and exit snapshot, and its derived status.
    pub fn task_state(&self, req: &StateRequest) -> (r: Result<StateResponse, Error>)
        requires
            self.wf(),
        ensures
            req.exec_id@.len() > 0 ==> (r matches Err(e) && spec_status_code(&e)
                == Code::InvalidArgument),
            req.exec_id@.len() == 0 && !has_id(self.spec_instances(), req.id@) ==> (r matches Err(
                e,
            ) && e is NotFound && e->NotFound_0@ == req.id@),
            req.exec_id@.len() == 0 && has_id(self.spec_instances(), req.id@) ==> {
                let d = self.spec_instances()[idx_of(self.spec_instances(), req.id@)].1;
                &&& r matches Ok(resp)
                &&& r matches Ok(resp) ==> {
                    &&& resp.bundle@ == d.spec_config().spec_bundle()
                    &&& resp.stdin@ == d.spec_config().spec_stdin()
                    &&& resp.stdout@ == d.spec_config().spec_stdout()
                    &&& resp.stderr@ == d.spec_config().spec_stderr()
                    &&& resp.pid == d.spec_pid().unwrap_or(0)
                    &&& resp.exit_status == (match d.spec_instance().exit_result() {
                        Some(e) => e.0,
                        None => 0,
                    })
                    &&& resp.exited_at == (match d.spec_instance().exit_result() {
                        Some(e) => Some(e.1),
                        None => None,
                    })
                    &&& resp.status == spec_task_status(
                        d.spec_pid(),
                        d.spec_instance().exit_result(),
                    )
                }
            },
    {
        if !str_is_empty(&req.exec_id) {
            return Err(Error::InvalidArgument("exec is not supported".to_owned()));
        }
        let i = match self.find_index(&req.id) {
            Some(i) => i,
            None => {
                return Err(Error::NotFound(req.id.clone()));
            },
        };
        let d = &self.instances[i].1;
        let pid_opt = d.pid();
        let exit = d.try_wait();
        let status = task_status(pid_opt, exit);
        let pid = match pid_opt {
            Some(p) => p,
            None => 0,
        };
        let (exit_status, exited_at): (u32, Option<Timestamp>) = match exit {
            Some((code, t)) => (code, Some(t)),
            None => (0, None),
        };
        Ok(StateResponse {
            bundle: d.config().get_bundle().clone(),
            stdin: d.config().get_stdin().clone(),
            stdout: d.config().get_stdout().clone(),
            stderr: d.config().get_stderr().clone(),
            pid,
            exit_status,
            exited_at,
            status,
        })
    }

    /// Reports cgroup metrics for a task: the id must be present and the
    /// task must have started. Collection itself is a stub that reports
    /// `Unimplemented`.
    pub fn task_stats(&self, req: &StatsRequest) -> (r: Result<StatsResponse, Error>)
        requires
            self.wf(),
        ensures
            !has_id(self.spec_instances(), req.id@) ==> (r matches Err(e) && e is NotFound
                && e->NotFound_0@ == req.id@),
            has_id(self.spec_instances(), req.id@) ==> {
                let d = self.spec_instances()[idx_of(self.spec_instances(), req.id@)].1;
                &&& d.spec_pid() is None ==> (r matches Err(e) && spec_status_code(&e)
                    == Code::InvalidArgument)
                &&& d.spec_pid() is Some ==> (r matches Err(e) && spec_status_code(&e)
                    == Code::Unimplemented)
            },
    {
        let i = match self.find_index(&req.id) {
            Some(i) => i,
            None => {
                return Err(Error::NotFound(req.id.clone()));
            },
        };
        let pid = match self.instances[i].1.pid() {
            Some(p) => p,
            None => {
                return Err(Error::InvalidArgument("task is not running".to_owned()));
            },
        };
        let _metrics = match get_metrics(pid) {
            Ok(m) => m,
            Err(e) => {
                return Err(e);
            },
        };
        Ok(StatsResponse { stats: None })
    }

    /// Reports the shim pid and the task pid for a task.
    pub fn connect(&self, req: &ConnectRequest, shim_pid: u32) -> (r: Result<
        ConnectResponse,
        Error,
    >)
        requires
            self.wf(),
        ensures
            !has_id(self.spec_instances(), req.id@) ==> (r matches Err(e) && e is NotFound
                && e->NotFound_0@ == req.id@),
            has_id(self.spec_instances(), req.id@) ==> (r matches Ok(resp) && resp.shim_pid
                == shim_pid && resp.task_pid == self.spec_instances()[idx_of(
                self.spec_instances(),
                req.id@,
            )].1.spec_pid().unwrap_or(0)),
    {
        let i = match self.find_index(&req.id) {
            Some(i) => i,
            None => {
                return Err(Error::NotFound(req.id.clone()));
            },
        };
        let task_pid = match self.instances[i].1.pid() {
            Some(p) => p,
            None => 0,
        };
        Ok(ConnectResponse { shim_pid, task_pid })
    }

    /// Decides what a shutdown request does to the server: an immediate
    /// request terminates; otherwise the server shuts down gracefully
    /// only once the task map is empty. Shutdown never fails.
    pub fn shutdown(&self, req: &ShutdownRequest) -> (r: ShutdownAction)
        ensures
            req.now ==> r is Terminate,
            !req.now && self.spec_instances().len() == 0 ==> r is Graceful,
            !req.now && self.spec_instances().len() > 0 ==> r is Ignore,
    {
        if req.now {
            ShutdownAction::Terminate
        } else if self.is_empty() {
            ShutdownAction::Graceful
        } else {
            ShutdownAction::Ignore
        }
    }
}

/// The externally visible status derived from the pid latch and exit cell.
pub fn task_status(pid: Option<u32>, exit: Option<(u32, Timestamp)>) -> (r: TaskStatus)
    ensures
        r == spec_task_status(pid, exit),
{
    if pid.is_none() {
        TaskStatus::Created
    } else if exit.is_none() {
        TaskStatus::Running
    } else {
        TaskStatus::Stopped
    }
}

/// The response a shim gives when the shim itself is deleted: no task
/// pid, the forced-exit status, and the moment of deletion.
pub fn delete_shim_response(now: Timestamp) -> (r: DeleteResponse)
    ensures
        r.pid == 0,
        r.exit_status == 137,
        r.exited_at == Some(now),
{
    DeleteResponse { pid: 0, exit_status: 137, exited_at: Some(now) }
}

/// The status a task reports across its life: a task fresh from a
/// successful create (no pid yet) reports `Created`; once start has
/// returned a pid and no exit has been observed it reports `Running`;
/// once the exit cell holds a value it reports `Stopped`.
pub proof fn lemma_task_status_lifecycle(pid: Option<u32>, exit: Option<(u32, Timestamp)>)
    ensures
        pid is None ==> spec_task_status(pid, exit) == TaskStatus::Created,
        pid is Some && exit is None ==> spec_task_status(pid, exit) == TaskStatus::Running,
        pid is Some && exit is Some ==> spec_task_status(pid, exit) == TaskStatus::Stopped,
{
}

/// Replacing the entry at `i` while keeping its id preserves uniqueness
/// and every id in the map.
proof fn lemma_update_entry<I: Instance>(
    oi: Seq<(String, InstanceData<I>)>,
    fi: Seq<(String, InstanceData<I>)>,
    i: int,
)
    requires
        ids_unique(oi),
        0 <= i < oi.len(),
        fi.len() == oi.len(),
        forall|j: int| 0 <= j < oi.len() && j != i ==> #[trigger] fi[j] == oi[j],
        fi[i].0@ == oi[i].0@,
    ensures
        ids_unique(fi),
        forall|j: int| 0 <= j < fi.len() ==> #[trigger] fi[j].0@ == oi[j].0@,
        idx_of(fi, oi[i].0@) == i,
    {
    assert forall|j: int| 0 <= j < fi.len() implies #[trigger] fi[j].0@ == oi[j].0@ by {
        if j != i {
            assert(fi[j] == oi[j]);
        }
    }
    assert forall|j: int, k: int| 0 <= j < k < fi.len() implies #[trigger] fi[j].0@
        != #[trigger] fi[k].0@ by {
        assert(oi[j].0@ != oi[k].0@);
    }
    lemma_idx_of(fi, oi[i].0@, i);
}

/// Removing the entry at `i` preserves uniqueness, removes exactly that
/// id, and keeps every other id.
proof fn lemma_remove_entry<I: Instance>(
    oi: Seq<(String, InstanceData<I>)>,
    fi: Seq<(String, InstanceData<I>)>,
    i: int,
)
    requires
        ids_unique(oi),
        0 <= i < oi.len(),
        fi == oi.remove(i),
    ensures
        ids_unique(fi),
        !has_id(fi, oi[i].0@),
        forall|k: Seq<char>| k != oi[i].0@ ==> (has_id(fi, k) <==> has_id(oi, k)),
    {
    assert(fi.len() == oi.len() - 1);
    assert(forall|j: int| 0 <= j < i ==> #[trigger] fi[j] == oi[j]);
    assert(forall|j: int| i <= j < fi.len() ==> #[trigger] fi[j] == oi[j + 1]);
    assert forall|j: int, k: int| 0 <= j < k < fi.len() implies #[trigger] fi[j].0@
        != #[trigger] fi[k].0@ by {
        let oj = if j < i { j } else { j + 1 };
        let ok = if k < i { k } else { k + 1 };
        assert(oi[oj].0@ != oi[ok].0@);
    }
    assert forall|j: int| 0 <= j < fi.len() implies #[trigger] fi[j].0@ != oi[i].0@ by {
        let oj = if j < i { j } else { j + 1 };
        if oj < i {
            assert(oi[oj].0@ != oi[i].0@);
        } else {
            assert(oi[i].0@ != oi[oj].0@);
        }
    }
    assert forall|k: Seq<char>| k != oi[i].0@ implies (has_id(fi, k) <==> has_id(oi, k)) by {
        if has_id(oi, k) {
            let oj = choose|j: int| 0 <= j < oi.len() && #[trigger] oi[j].0@ == k;
            assert(oj != i);
            let fj = if oj < i { oj } else { oj - 1 };
            assert(fi[fj].0@ == k);
        }
        if has_id(fi, k) {
            let fj = choose|j: int| 0 <= j < fi.len() && #[trigger] fi[j].0@ == k;
            let oj = if fj < i { fj } else { fj + 1 };
            assert(oi[oj].0@ == k);
        }
    }
}

} // verus!
