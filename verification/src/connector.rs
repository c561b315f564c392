//! Raw connector snapshots: the plain-value image of what the kernel
//! reports about one physical display connection point.
//!
//! The unverified shell queries the display-control device and copies each
//! connector's control-plane data into a [`ConnectorInfo`]. From then on the
//! library works on these snapshots alone.

use vstd::prelude::*;

verus! {

/// Timing data of one video mode: resolution in pixels and the
/// kernel-reported vertical refresh rate in Hz.
#[derive(Debug, Clone, Copy, PartialEq, Eq, Hash, Structural)]
pub struct ModeInfo {
    pub width: u16,
    pub height: u16,
    pub vrefresh: u32,
}

/// The connection state the kernel reports for a connector.
#[derive(Debug, Clone, Copy, PartialEq, Eq, Hash, Structural)]
pub enum ConnectionState {
    Connected,
    Disconnected,
    Unknown,
}

/// The control-plane snapshot of one connector: its kernel-assigned
/// interface identifier (stable per physical connector while the device is
/// open), its connection state, and its supported modes in kernel-reported
/// order. The first mode, when present, is the connector's preferred /
/// native mode.
#[derive(Debug, Eq, Hash)]
pub struct ConnectorInfo {
    pub interface_id: u32,
    pub state: ConnectionState,
    pub modes: Vec<ModeInfo>,
}

/// The mathematical value of a [`ConnectorInfo`].
#[verifier::ext_equal]
pub struct ConnectorView {
    pub id: u32,
    pub state: ConnectionState,
    pub modes: Seq<ModeInfo>,
}

impl View for ConnectorInfo {
    type V = ConnectorView;

    open spec fn view(&self) -> ConnectorView {
        ConnectorView { id: self.interface_id, state: self.state, modes: self.modes@ }
    }
}

/// Compares two mode lists element by element.
fn mode_lists_equal(a: &Vec<ModeInfo>, b: &Vec<ModeInfo>) -> (r: bool)
    ensures
        r <==> a@ == b@,
{
    if a.len() != b.len() {
        return false;
    }
    let mut i: usize = 0;
    while i < a.len()
        invariant
            a@.len() == b@.len(),
            0 <= i <= a@.len(),
            forall|j: int| 0 <= j < i ==> a@[j] == b@[j],
        decreases a@.len() - i,
    {
        if a[i] != b[i] {
            proof {
                assert(a@[i as int] != b@[i as int]);
            }
            return false;
        }
        i += 1;
    }
    proof {
        assert(a@ =~= b@);
    }
    true
}

impl PartialEq for ConnectorInfo {
    /// Two snapshots are equal exactly when their control-plane data is
    /// equal: same identifier, same state, same mode list.
    fn eq(&self, other: &Self) -> (r: bool) {
        if self.interface_id != other.interface_id {
            return false;
        }
        if self.state != other.state {
            return false;
        }
        let r = mode_lists_equal(&self.modes, &other.modes);
        proof {
            if r {
                assert(self@ =~= other@);
            }
        }
        r
    }
}

impl vstd::std_specs::cmp::PartialEqSpecImpl for ConnectorInfo {
    open spec fn obeys_eq_spec() -> bool {
        true
    }

    open spec fn eq_spec(&self, other: &Self) -> bool {
        self@ == other@
    }
}

impl Clone for ConnectorInfo {
    /// The clone carries the same control-plane data as the original.
    fn clone(&self) -> (r: Self)
        ensures
            r@ == self@,
    {
        let mut modes: Vec<ModeInfo> = Vec::new();
        let mut i: usize = 0;
        while i < self.modes.len()
            invariant
                0 <= i <= self.modes@.len(),
                modes@ == self.modes@.take(i as int),
            decreases self.modes@.len() - i,
        {
            modes.push(self.modes[i]);
            proof {
                assert(modes@ =~= self.modes@.take(i + 1));
            }
            i += 1;
        }
        proof {
            assert(self.modes@.take(self.modes@.len() as int) =~= self.modes@);
        }
        let r = ConnectorInfo { interface_id: self.interface_id, state: self.state, modes };
        proof {
            assert(r@ =~= self@);
        }
        r
    }
}

/// The error of one failed control-plane query, as the operating system
/// reported it: a raw error code.
#[derive(Debug, Clone, Copy, PartialEq, Eq, Hash, Structural)]
pub struct QueryError {
    pub code: i32,
}

} // verus!
