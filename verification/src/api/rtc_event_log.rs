//! The model of the RTC event log factory.

use vstd::prelude::*;

use crate::NativePtr;

verus! {

/// A factory for RTC event logs, exclusively owned until it is handed to
/// the peer connection factory dependencies.
pub struct RtcEventLogFactory {
    created: bool,
}

impl RtcEventLogFactory {
    /// A fresh factory.
    pub fn new() -> (r: RtcEventLogFactory)
        ensures
            r.allocated(),
    {
        RtcEventLogFactory { created: true }
    }

    /// Whether the factory is allocated; it stays allocated for the
    /// value's whole lifetime.
    pub closed spec fn allocated(self) -> bool {
        self.created
    }

    /// Forfeits ownership to the native consumer; the wrapper keeps no way
    /// to reach the factory again, so its destroy obligation moves with
    /// the returned address.
    pub fn into_raw(self) -> (r: NativePtr)
        ensures
            r == (NativePtr { addr: 1 }),
    {
        NativePtr { addr: 1 }
    }
}

} // verus!
