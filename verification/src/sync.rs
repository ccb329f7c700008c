//! A set-once cell where waiters obtain the value once it has been set.
//!
//! The running shim shares one such cell between the instance and the task
//! service and lets RPC clients block on it; here the cell is the sequential
//! core of that object. Blocking is expressed as a precondition: `wait`
//! demands a populated cell, and a caller that cannot show it polls
//! `try_wait` instead. The driver around the library parks the RPC until
//! the cell reports a value.

use vstd::prelude::*;

verus! {

/// A cell that accepts at most one value.
pub struct WaitableCell<T> {
    value: Option<T>,
}

impl<T> View for WaitableCell<T> {
    type V = Option<T>;

    closed spec fn view(&self) -> Option<T> {
        self.value
    }
}

/// The cell contents after an attempt to set `v`: the first set fills the
/// cell, a later one leaves it as it is.
pub open spec fn cell_after_set<T>(c: Option<T>, v: T) -> Option<T> {
    if c is None {
        Some(v)
    } else {
        c
    }
}

/// Whether an attempt to set finds the cell empty and therefore succeeds.
pub open spec fn set_succeeds<T>(c: Option<T>) -> bool {
    c is None
}

impl<T> WaitableCell<T> {
    /// Creates an empty cell.
    pub fn new() -> (c: Self)
        ensures
            c@ is None,
    {
        WaitableCell { value: None }
    }

    /// Sets a value. The first call stores it and returns `Ok`; every
    /// later call leaves the stored value untouched and hands the
    /// rejected value back as `Err`.
    pub fn set(&mut self, val: T) -> (r: Result<(), T>)
        ensures
            final(self)@ == cell_after_set(old(self)@, val),
            r is Ok <==> set_succeeds(old(self)@),
            r matches Err(v) ==> v == val,
    {
        if self.value.is_none() {
            self.value = Some(val);
            Ok(())
        } else {
            Err(val)
        }
    }

    /// Produces a guard carrying a fallback value; resolving the guard
    /// against the cell stores the fallback only if the cell is still
    /// empty. The running shim resolves the guard on every exit path,
    /// including unwinding, so a waiter always finds a value.
    pub fn set_guard_with(&self, fallback: T) -> (g: WaitableCellSetGuard<T>)
        ensures
            g.fallback == fallback,
    {
        WaitableCellSetGuard { fallback }
    }
}

impl<T: Copy> WaitableCell<T> {
    /// The value, once the cell has one. A caller that cannot yet show
    /// the cell is populated polls `try_wait` until it reports the value.
    pub fn wait(&self) -> (r: T)
        requires
            self@ is Some,
        ensures
            r == self@->0,
    {
        self.value.unwrap()
    }

    /// A non-blocking peek at the cell.
    pub fn try_wait(&self) -> (r: Option<T>)
        ensures
            r == self@,
    {
        self.value
    }
}

/// A pending fallback for a cell; see [`WaitableCell::set_guard_with`].
pub struct WaitableCellSetGuard<T> {
    pub fallback: T,
}

impl<T> WaitableCellSetGuard<T> {
    /// Resolves the guard: if the cell is still empty it receives the
    /// fallback, otherwise nothing changes.
    pub fn resolve(self, cell: &mut WaitableCell<T>)
        ensures
            old(cell)@ is None ==> final(cell)@ == Some(self.fallback),
            old(cell)@ is Some ==> final(cell)@ == old(cell)@,
    {
        let _ = cell.set(self.fallback);
    }
}

/// Exactly one set succeeds on a cell, and every waiter observes the value
/// that the one successful set stored: the first set on an empty cell
/// fills it with its value, after which no set succeeds or changes the
/// contents, and `wait` and `try_wait` report exactly the stored value.
pub proof fn lemma_cell_set_once<T>(c: Option<T>, first: T, later: T)
    requires
        set_succeeds(c),
    ensures
        cell_after_set(c, first) == Some(first),
        !set_succeeds(cell_after_set(c, first)),
        cell_after_set(cell_after_set(c, first), later) == Some(first),
{
}

} // verus!
