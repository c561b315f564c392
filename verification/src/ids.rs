//! Identity placeholders for a backend that drives exactly one
//! display-control device and does not yet implement multi-window identity.
//!
//! Both types are zero-sized: every value equals every other. They must not
//! be relied on to distinguish two devices or two windows — a documented
//! limitation, not a real identity scheme.

use vstd::prelude::*;

verus! {

/// Stands for the one and only display-control device.
#[derive(Debug, Clone, Copy, PartialEq, Eq, PartialOrd, Ord, Hash, Structural)]
pub struct DeviceId;

impl DeviceId {
    /// A placeholder device identity. All values are equal.
    pub fn dummy() -> (r: DeviceId)
        ensures
            r == DeviceId,
    {
        DeviceId
    }
}

/// Stands for a window in a backend without real window identity.
#[derive(Debug, Clone, Copy, PartialEq, Eq, PartialOrd, Ord, Hash, Structural)]
pub struct WindowId;

impl WindowId {
    /// A placeholder window identity. All values are equal.
    pub fn dummy() -> (r: WindowId)
        ensures
            r == WindowId,
    {
        WindowId
    }
}

} // verus!
