//! The per-task lifecycle state machine.
//!
//! States move along a fixed set of edges; an operation outside them is
//! rejected with `FailedPrecondition` and leaves the state unchanged.

use vstd::prelude::*;

use crate::error::Error;

verus! {

/// The lifecycle state of one task.
#[derive(Clone, Copy, Debug, PartialEq, Eq, Structural)]
pub enum TaskState {
    Created,
    Starting,
    Running,
    Deleting,
    Exited,
}

/// The operations that drive the state machine.
#[derive(Clone, Copy, Debug, PartialEq, Eq, Structural)]
pub enum TaskOp {
    Start,
    Started,
    Stop,
    Delete,
    Kill,
}

/// The accepted transitions: `Some(next)` when `op` is legal in `s`,
/// `None` when it must be rejected.
///
/// The edges are: start moves a created task towards running via a
/// starting phase; a starting or running task (or a deletion that failed
/// midway) can stop into the exited state; deletion begins only before a
/// start or after an exit; a kill is accepted only while running and
/// leaves the state as it is.
pub open spec fn task_step(s: TaskState, op: TaskOp) -> Option<TaskState> {
    match op {
        TaskOp::Start => match s {
            TaskState::Created => Some(TaskState::Starting),
            _ => None,
        },
        TaskOp::Started => match s {
            TaskState::Starting => Some(TaskState::Running),
            _ => None,
        },
        TaskOp::Stop => match s {
            TaskState::Starting => Some(TaskState::Exited),
            TaskState::Running => Some(TaskState::Exited),
            TaskState::Deleting => Some(TaskState::Exited),
            TaskState::Exited => Some(TaskState::Exited),
            _ => None,
        },
        TaskOp::Delete => match s {
            TaskState::Created => Some(TaskState::Deleting),
            TaskState::Exited => Some(TaskState::Deleting),
            _ => None,
        },
        TaskOp::Kill => match s {
            TaskState::Running => Some(TaskState::Running),
            _ => None,
        },
    }
}

impl TaskState {
    /// Applies `op`: moves along the edge when one exists, otherwise
    /// reports `FailedPrecondition` and stays put.
    pub fn apply(&mut self, op: TaskOp) -> (r: Result<(), Error>)
        ensures
            r is Ok <==> task_step(*old(self), op) is Some,
            r is Ok ==> Some(*final(self)) == task_step(*old(self), op),
            r is Err ==> *final(self) == *old(self),
            r matches Err(e) ==> e is FailedPrecondition,
    {
        let next: Option<TaskState> = match op {
            TaskOp::Start => match *self {
                TaskState::Created => Some(TaskState::Starting),
                _ => None,
            },
            TaskOp::Started => match *self {
                TaskState::Starting => Some(TaskState::Running),
                _ => None,
            },
            TaskOp::Stop => match *self {
                TaskState::Starting => Some(TaskState::Exited),
                TaskState::Running => Some(TaskState::Exited),
                TaskState::Deleting => Some(TaskState::Exited),
                TaskState::Exited => Some(TaskState::Exited),
                _ => None,
            },
            TaskOp::Delete => match *self {
                TaskState::Created => Some(TaskState::Deleting),
                TaskState::Exited => Some(TaskState::Deleting),
                _ => None,
            },
            TaskOp::Kill => match *self {
                TaskState::Running => Some(TaskState::Running),
                _ => None,
            },
        };
        match next {
            Some(s) => {
                *self = s;
                Ok(())
            },
            None => Err(Error::FailedPrecondition(String::new())),
        }
    }

    /// Begin starting: legal only from `Created`.
    pub fn start(&mut self) -> (r: Result<(), Error>)
        ensures
            r is Ok <==> *old(self) is Created,
            r is Ok ==> *final(self) is Starting,
            r is Err ==> *final(self) == *old(self),
            r matches Err(e) ==> e is FailedPrecondition,
    {
        self.apply(TaskOp::Start)
    }

    /// Record that the start completed: legal only from `Starting`.
    pub fn started(&mut self) -> (r: Result<(), Error>)
        ensures
            r is Ok <==> *old(self) is Starting,
            r is Ok ==> *final(self) is Running,
            r is Err ==> *final(self) == *old(self),
            r matches Err(e) ==> e is FailedPrecondition,
    {
        self.apply(TaskOp::Started)
    }

    /// Record an exit: legal from `Starting`, `Running`, `Deleting` and
    /// (idempotently) `Exited`.
    pub fn stop(&mut self) -> (r: Result<(), Error>)
        ensures
            r is Ok <==> task_step(*old(self), TaskOp::Stop) is Some,
            r is Ok ==> *final(self) is Exited,
            r is Err ==> *final(self) == *old(self),
            r matches Err(e) ==> e is FailedPrecondition,
    {
        self.apply(TaskOp::Stop)
    }

    /// Begin deleting: legal only from `Created` or `Exited`.
    pub fn delete(&mut self) -> (r: Result<(), Error>)
        ensures
            r is Ok <==> (*old(self) is Created || *old(self) is Exited),
            r is Ok ==> *final(self) is Deleting,
            r is Err ==> *final(self) == *old(self),
            r matches Err(e) ==> e is FailedPrecondition,
    {
        self.apply(TaskOp::Delete)
    }

    /// Accept a kill: legal only while `Running`; the state is unchanged.
    pub fn kill(&mut self) -> (r: Result<(), Error>)
        ensures
            r is Ok <==> *old(self) is Running,
            *final(self) == *old(self),
            r matches Err(e) ==> e is FailedPrecondition,
    {
        self.apply(TaskOp::Kill)
    }
}

/// Whether every operation in `ops` is accepted in turn, beginning at `s`.
pub open spec fn ops_accepted(s: TaskState, ops: Seq<TaskOp>) -> bool
    decreases ops.len(),
{
    ops.len() == 0 || {
        &&& task_step(s, ops[0]) is Some
        &&& ops_accepted(task_step(s, ops[0])->0, ops.skip(1))
    }
}

/// The state after an accepted sequence of operations.
pub open spec fn run_ops(s: TaskState, ops: Seq<TaskOp>) -> TaskState
    decreases ops.len(),
{
    if ops.len() == 0 {
        s
    } else {
        run_ops(task_step(s, ops[0])->0, ops.skip(1))
    }
}

/// Every accepted sequence of operations traces a legal path through the
/// state machine: after each accepted prefix the next operation moves
/// along an edge of `task_step`.
pub proof fn lemma_accepted_ops_form_legal_path(s: TaskState, ops: Seq<TaskOp>, i: int)
    requires
        ops_accepted(s, ops),
        0 <= i < ops.len(),
    ensures
        task_step(run_ops(s, ops.take(i)), ops[i]) is Some,
        run_ops(s, ops.take(i + 1)) == task_step(run_ops(s, ops.take(i)), ops[i])->0,
    decreases ops.len(),
{
    if i == 0 {
        assert(ops.take(0) =~= Seq::<TaskOp>::empty());
        let q = ops.take(1);
        assert(q.len() == 1 && q[0] == ops[0]);
        assert(q.skip(1) =~= Seq::<TaskOp>::empty());
        let s1 = task_step(s, ops[0])->0;
        assert(run_ops(s, q) == run_ops(s1, q.skip(1)));
        assert(run_ops(s1, Seq::<TaskOp>::empty()) == s1);
    } else {
        let s1 = task_step(s, ops[0])->0;
        lemma_accepted_ops_form_legal_path(s1, ops.skip(1), i - 1);
        assert(ops.skip(1).take(i - 1) =~= ops.take(i).skip(1));
        assert(ops.skip(1).take(i) =~= ops.take(i + 1).skip(1));
        assert(ops.skip(1)[i - 1] == ops[i]);
        assert(run_ops(s, ops.take(i)) == run_ops(s1, ops.take(i).skip(1)));
        assert(run_ops(s, ops.take(i + 1)) == run_ops(s1, ops.take(i + 1).skip(1)));
    }
}

} // verus!
