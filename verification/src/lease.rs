//! The GC lease held while content is read from the daemon.
//!
//! A lease protects content from the daemon's garbage collector. The
//! guard remembers whether it was released explicitly; when it is
//! dropped without that, exactly one best-effort delete of the lease is
//! attempted. The driver performs the delete call; a failure is logged
//! there, never surfaced.

use vstd::prelude::*;

verus! {

/// The daemon call that deletes one lease.
pub struct LeaseRelease {
    pub lease_id: String,
    pub namespace: String,
    pub address: String,
}

/// A held lease: its id, the containerd namespace and the daemon
/// address, and whether it has been released explicitly.
pub struct LeaseGuard {
    released: bool,
    lease_id: String,
    namespace: String,
    address: String,
}

impl LeaseGuard {
    pub closed spec fn spec_released(&self) -> bool {
        self.released
    }

    pub closed spec fn spec_lease_id(&self) -> Seq<char> {
        self.lease_id@
    }

    pub closed spec fn spec_namespace(&self) -> Seq<char> {
        self.namespace@
    }

    pub closed spec fn spec_address(&self) -> Seq<char> {
        self.address@
    }

    /// Takes charge of a lease the daemon granted.
    pub fn new(lease_id: String, namespace: String, address: String) -> (g: Self)
        ensures
            !g.spec_released(),
            g.spec_lease_id() == lease_id@,
            g.spec_namespace() == namespace@,
            g.spec_address() == address@,
    {
        LeaseGuard { released: false, lease_id, namespace, address }
    }

    /// Releases the lease explicitly: marks the guard released and hands
    /// the driver the delete call to perform.
    pub fn release(&mut self) -> (r: LeaseRelease)
        ensures
            final(self).spec_released(),
            final(self).spec_lease_id() == old(self).spec_lease_id(),
            final(self).spec_namespace() == old(self).spec_namespace(),
            final(self).spec_address() == old(self).spec_address(),
            r.lease_id@ == old(self).spec_lease_id(),
            r.namespace@ == old(self).spec_namespace(),
            r.address@ == old(self).spec_address(),
    {
        self.released = true;
        LeaseRelease {
            lease_id: self.lease_id.clone(),
            namespace: self.namespace.clone(),
            address: self.address.clone(),
        }
    }

    /// Ends the guard's life: a guard that was never released yields
    /// exactly one delete call for the driver to attempt (best-effort);
    /// a released one yields none.
    pub fn drop_release(self) -> (r: Option<LeaseRelease>)
        ensures
            self.spec_released() ==> r is None,
            !self.spec_released() ==> (r matches Some(q) && q.lease_id@ == self.spec_lease_id()
                && q.namespace@ == self.spec_namespace() && q.address@ == self.spec_address()),
    {
        if self.released {
            None
        } else {
            Some(
                LeaseRelease {
                    lease_id: self.lease_id,
                    namespace: self.namespace,
                    address: self.address,
                },
            )
        }
    }
}

} // verus!
