//! The executor's dispatch decision: run the workload as a native Linux
//! binary, hand it to the Wasm engine, or declare it unhandleable.

use vstd::prelude::*;

use crate::error::Error;
use crate::instance::InstanceConfig;

verus! {

/// The three stdio FIFO paths of a container. The record is handed to
/// the dispatched workload exactly once: `take` yields the paths and
/// leaves an exhausted record behind, so redirecting is idempotent
/// after the first take. The driver moves the taken FIFOs onto the
/// process's FDs 0, 1 and 2.
pub struct Stdio {
    stdin: String,
    stdout: String,
    stderr: String,
    taken: bool,
}

impl Stdio {
    pub closed spec fn spec_stdin(&self) -> Seq<char> {
        self.stdin@
    }

    pub closed spec fn spec_stdout(&self) -> Seq<char> {
        self.stdout@
    }

    pub closed spec fn spec_stderr(&self) -> Seq<char> {
        self.stderr@
    }

    pub closed spec fn spec_taken(&self) -> bool {
        self.taken
    }

    /// The stdin FIFO path.
    pub fn stdin(&self) -> (r: &String)
        ensures
            r@ == self.spec_stdin(),
    {
        &self.stdin
    }

    /// The stdout FIFO path.
    pub fn stdout(&self) -> (r: &String)
        ensures
            r@ == self.spec_stdout(),
    {
        &self.stdout
    }

    /// The stderr FIFO path.
    pub fn stderr(&self) -> (r: &String)
        ensures
            r@ == self.spec_stderr(),
    {
        &self.stderr
    }

    /// The stdio record an instance starts from: the FIFO paths of its
    /// configuration, not yet taken.
    pub fn init_from_cfg<E>(cfg: &InstanceConfig<E>) -> (r: Stdio)
        ensures
            !r.spec_taken(),
            r.spec_stdin() == cfg.spec_stdin(),
            r.spec_stdout() == cfg.spec_stdout(),
            r.spec_stderr() == cfg.spec_stderr(),
    {
        Stdio {
            stdin: cfg.get_stdin().clone(),
            stdout: cfg.get_stdout().clone(),
            stderr: cfg.get_stderr().clone(),
            taken: false,
        }
    }

    /// Takes the record: the first take yields the paths, every later
    /// one an exhausted record with empty paths.
    pub fn take(&mut self) -> (r: Stdio)
        ensures
            final(self).spec_taken(),
            !old(self).spec_taken() ==> {
                &&& r.spec_stdin() == old(self).spec_stdin()
                &&& r.spec_stdout() == old(self).spec_stdout()
                &&& r.spec_stderr() == old(self).spec_stderr()
                &&& !r.spec_taken()
            },
            old(self).spec_taken() ==> {
                &&& r.spec_stdin() == Seq::<char>::empty()
                &&& r.spec_stdout() == Seq::<char>::empty()
                &&& r.spec_stderr() == Seq::<char>::empty()
                &&& !r.spec_taken()
            },
    {
        if self.taken {
            return Stdio {
                stdin: String::new(),
                stdout: String::new(),
                stderr: String::new(),
                taken: false,
            };
        }
        let r = Stdio {
            stdin: self.stdin.clone(),
            stdout: self.stdout.clone(),
            stderr: self.stderr.clone(),
            taken: false,
        };
        self.stdin = String::new();
        self.stdout = String::new();
        self.stderr = String::new();
        self.taken = true;
        r
    }
}

/// How the container's workload is dispatched.
#[derive(Clone, Copy, Debug, PartialEq, Eq, Structural)]
pub enum InnerExecutor {
    Wasm,
    Linux,
    CantHandle,
}

/// Whether the first four bytes of an executable mark it as something
/// Linux can run directly: the ELF magic or a shebang line.
pub open spec fn spec_is_linux_magic(b: Seq<u8>) -> bool {
    b.len() == 4 && ((b[0] == 0x7f && b[1] == 0x45 && b[2] == 0x4c && b[3] == 0x46) || (b[0]
        == 0x23 && b[1] == 0x21))
}

/// Checks the ELF magic number and the shebang marker.
pub fn is_linux_magic(magic: &[u8; 4]) -> (r: bool)
    ensures
        r == spec_is_linux_magic(magic@),
{
    (magic[0] == 0x7f && magic[1] == 0x45 && magic[2] == 0x4c && magic[3] == 0x46) || (magic[0]
        == 0x23 && magic[1] == 0x21)
}

/// The dispatch decision: an entrypoint that came from an OCI Wasm layer
/// is Wasm without probing; otherwise an executable whose first bytes
/// show ELF or a shebang is Linux; otherwise the engine decides, and a
/// workload it declines cannot be handled.
pub open spec fn spec_decide_executor(
    entrypoint_is_oci_wasm: bool,
    probe: Option<[u8; 4]>,
    engine_accepts: bool,
) -> InnerExecutor {
    if entrypoint_is_oci_wasm {
        InnerExecutor::Wasm
    } else if probe matches Some(m) && spec_is_linux_magic(m@) {
        InnerExecutor::Linux
    } else if engine_accepts {
        InnerExecutor::Wasm
    } else {
        InnerExecutor::CantHandle
    }
}

/// Decides the dispatch once per container. `probe` carries the first
/// four bytes of the resolved entrypoint executable, when one was found
/// on `PATH` with an execute bit set; `engine_accepts` is what the
/// engine's own check reported.
pub fn decide_executor(
    entrypoint_is_oci_wasm: bool,
    probe: &Option<[u8; 4]>,
    engine_accepts: bool,
) -> (r: InnerExecutor)
    ensures
        r == spec_decide_executor(entrypoint_is_oci_wasm, *probe, engine_accepts),
{
    if entrypoint_is_oci_wasm {
        return InnerExecutor::Wasm;
    }
    match probe {
        Some(magic) => {
            if is_linux_magic(magic) {
                return InnerExecutor::Linux;
            }
        },
        None => {},
    }
    if engine_accepts {
        InnerExecutor::Wasm
    } else {
        InnerExecutor::CantHandle
    }
}

/// Whether a file mode grants execution to others: the low execute bit.
pub fn is_executable_mode(mode: u32) -> (r: bool)
    ensures
        r == (mode & 0x1 != 0),
{
    mode & 0x1 != 0
}

/// The executor's answer to the container builder's validation: a
/// workload the dispatch cannot handle is reported as an error so the
/// builder may try another executor; anything else is accepted.
pub fn validate(inner: &InnerExecutor) -> (r: Result<(), Error>)
    ensures
        r is Ok <==> !(inner is CantHandle),
        r matches Err(e) ==> e is Others,
{
    match inner {
        InnerExecutor::CantHandle => Err(
            Error::Others("the executor cannot handle this workload".to_owned()),
        ),
        _ => Ok(()),
    }
}

/// The process exit code after running the Wasm start function: the
/// engine's own code on success, the forced-exit code on error.
pub open spec fn spec_run_wasi_exit_code(run: Result<i32, String>) -> i32 {
    match run {
        Ok(code) => code,
        Err(_) => 137,
    }
}

/// The process exit code after running the Wasm start function: the
/// engine's own code on success, the forced-exit code 137 on error.
pub fn run_wasi_exit_code(run: &Result<i32, String>) -> (r: i32)
    ensures
        r == spec_run_wasi_exit_code(*run),
        run matches Ok(code) ==> r == code,
        run is Err ==> r == 137,
{
    match run {
        Ok(code) => *code,
        Err(_) => 137,
    }
}

/// A workload whose start function failed — a trap included — never
/// reports success: its recorded exit code is the forced-exit code 137,
/// which is not zero.
pub proof fn lemma_failed_run_exits_nonzero(run: Result<i32, String>)
    requires
        run is Err,
    ensures
        spec_run_wasi_exit_code(run) == 137,
        spec_run_wasi_exit_code(run) != 0,
{
}

} // verus!
