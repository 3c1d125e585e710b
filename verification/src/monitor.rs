//! Monitor identity accessor.

use vstd::prelude::*;

verus! {

/// The backend's own monitor payload: the opaque numeric identifier the
/// display server assigned to this monitor.
#[derive(Clone, Copy, Debug, PartialEq, Eq, Structural)]
pub struct MonitorId {
    /// The backend-assigned native identifier.
    pub id: u32,
}

/// A handle to one monitor known to the backend.
#[derive(Clone, Copy, Debug, PartialEq, Eq, Structural)]
pub struct MonitorHandle {
    /// The backend payload this handle wraps.
    pub inner: MonitorId,
}

/// Additional methods on a monitor handle that are specific to Unix.
pub trait MonitorHandleExtUnix {
    /// Returns the inner identifier of the monitor.
    fn native_id(&self) -> u32;
}

impl MonitorHandleExtUnix for MonitorHandle {
    /// Returns the backend-assigned native identifier of the monitor.
    ///
    /// Stable for the lifetime of this handle; not guaranteed stable across
    /// monitor reconnection or reenumeration.
    fn native_id(&self) -> (r: u32)
        ensures
            r == self.inner.id,
    {
        self.inner.id
    }
}

/// The identity accessor is a pure function of the unmodified handle: any two
/// results read from the same handle are equal.
pub proof fn lemma_native_id_stable(m: MonitorHandle, r1: u32, r2: u32)
    requires
        r1 == m.inner.id,
        r2 == m.inner.id,
    ensures
        r1 == r2,
{
}

} // verus!
