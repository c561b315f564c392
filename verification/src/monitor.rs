//! Monitor and video-mode descriptors: immutable snapshots handed to the
//! windowing layer, with identity and ordering taken from the connector's
//! kernel-assigned interface identifier.

use vstd::prelude::*;
use vstd::std_specs::cmp::PartialOrdSpec;
use vstd::string::StringExecFns;

use crate::connector::ConnectorInfo;
use crate::connector::ConnectorView;
use crate::connector::ModeInfo;
use crate::geometry::PhysicalPosition;
use crate::geometry::PhysicalSize;

verus! {

/// One connected display output. Obtained from the enumeration protocol;
/// wraps the connector's control-plane snapshot. Equality is structural
/// over that snapshot; ordering goes by the interface identifier alone.
#[derive(Debug)]
pub struct MonitorHandle {
    info: ConnectorInfo,
}

/// The mathematical value of a [`VideoMode`]: its timing data and the
/// control-plane snapshot of the output it belongs to.
#[verifier::ext_equal]
pub struct VideoModeView {
    pub mode: ModeInfo,
    pub connector: ConnectorView,
}

/// One supported mode of a specific output. Carries its own copy of the
/// owning output's snapshot, so it stays usable after the output descriptor
/// it came from is gone.
#[derive(Debug, Eq, Hash)]
pub struct VideoMode {
    mode: ModeInfo,
    connector: ConnectorInfo,
}

impl View for MonitorHandle {
    type V = ConnectorView;

    closed spec fn view(&self) -> ConnectorView {
        self.info@
    }
}

impl View for VideoMode {
    type V = VideoModeView;

    closed spec fn view(&self) -> VideoModeView {
        VideoModeView { mode: self.mode, connector: self.connector@ }
    }
}

impl MonitorHandle {
    /// Wraps one connector snapshot. Only the enumeration protocol creates
    /// handles; there is no public constructor.
    pub(crate) fn from_info(info: ConnectorInfo) -> (r: MonitorHandle)
        ensures
            r@ == info@,
    {
        MonitorHandle { info }
    }

    /// The display name. A fixed stand-in for the device node's name, not a
    /// per-connector lookup.
    pub fn name(&self) -> (r: Option<String>)
        ensures
            r is Some,
            (match r {
                Some(n) => n@ == "card0"@,
                None => false,
            }),
    {
        Some(String::from_str("card0"))
    }

    /// The kernel-assigned interface identifier: the sole basis for
    /// ordering, and a faithful proxy for equality within one session.
    pub fn native_identifier(&self) -> (r: u32)
        ensures
            r == self@.id,
    {
        self.info.interface_id
    }

    /// The pixel size of the output's preferred mode (mode index 0).
    /// Callers must first check that the output reports at least one mode;
    /// [`MonitorHandle::try_size`] is the checked form.
    pub fn size(&self) -> (r: PhysicalSize)
        requires
            self@.modes.len() > 0,
        ensures
            r.width == self@.modes[0].width as u32,
            r.height == self@.modes[0].height as u32,
    {
        let m = self.info.modes[0];
        PhysicalSize::new(m.width as u32, m.height as u32)
    }

    /// The pixel size of the output's preferred mode, or `None` when the
    /// output reports no modes at all. Never fabricates a size for a
    /// mode-less output.
    pub fn try_size(&self) -> (r: Option<PhysicalSize>)
        ensures
            (match r {
                Some(s) => self@.modes.len() > 0 && s.width == self@.modes[0].width as u32
                    && s.height == self@.modes[0].height as u32,
                None => self@.modes.len() == 0,
            }),
    {
        if self.info.modes.len() == 0 {
            None
        } else {
            Some(self.size())
        }
    }

    /// The output's position in a global layout. Always the origin: there
    /// is no multi-monitor layout support.
    pub fn position(&self) -> (r: PhysicalPosition)
        ensures
            r.x == 0,
            r.y == 0,
    {
        PhysicalPosition::new(0, 0)
    }

    /// The modes this output supports, as the enumeration reported them.
    pub open spec fn spec_video_modes(&self) -> Seq<VideoModeView> {
        Seq::new(self@.modes.len(), |i: int| VideoModeView { mode: self@.modes[i], connector: self@ })
    }

    /// One descriptor per kernel-reported mode, in kernel-reported order,
    /// each carrying a copy of this output's snapshot. No re-sorting, no
    /// de-duplication; a fresh, independent list on every call.
    pub fn video_modes(&self) -> (r: Vec<VideoMode>)
        ensures
            r@.map_values(|vm: VideoMode| vm@) == self.spec_video_modes(),
    {
        let mut out: Vec<VideoMode> = Vec::new();
        let mut i: usize = 0;
        while i < self.info.modes.len()
            invariant
                0 <= i <= self.info.modes@.len(),
                out@.len() == i,
                forall|j: int| 0 <= j < i ==> (#[trigger] out@[j])@ == self.spec_video_modes()[j],
            decreases self.info.modes@.len() - i,
        {
            let m = self.info.modes[i];
            out.push(VideoMode { mode: m, connector: self.info.clone() });
            i += 1;
        }
        proof {
            assert(out@.map_values(|vm: VideoMode| vm@) =~= self.spec_video_modes());
        }
        out
    }
}

impl Clone for MonitorHandle {
    /// The clone carries the same connector snapshot as the original.
    fn clone(&self) -> (r: Self)
        ensures
            r@ == self@,
    {
        MonitorHandle { info: self.info.clone() }
    }
}

impl PartialEq for MonitorHandle {
    /// Structural equality over the underlying control-plane snapshot.
    fn eq(&self, other: &Self) -> (r: bool) {
        self.info == other.info
    }
}

impl vstd::std_specs::cmp::PartialEqSpecImpl for MonitorHandle {
    open spec fn obeys_eq_spec() -> bool {
        true
    }

    open spec fn eq_spec(&self, other: &Self) -> bool {
        self@ == other@
    }
}

impl PartialOrd for MonitorHandle {
    /// Ordering goes by the interface identifier alone, ascending.
    fn partial_cmp(&self, other: &Self) -> (r: Option<core::cmp::Ordering>) {
        if self.info.interface_id < other.info.interface_id {
            Some(core::cmp::Ordering::Less)
        } else if self.info.interface_id == other.info.interface_id {
            Some(core::cmp::Ordering::Equal)
        } else {
            Some(core::cmp::Ordering::Greater)
        }
    }
}

impl vstd::std_specs::cmp::PartialOrdSpecImpl for MonitorHandle {
    open spec fn obeys_partial_cmp_spec() -> bool {
        true
    }

    open spec fn partial_cmp_spec(&self, other: &Self) -> Option<core::cmp::Ordering> {
        if self@.id < other@.id {
            Some(core::cmp::Ordering::Less)
        } else if self@.id == other@.id {
            Some(core::cmp::Ordering::Equal)
        } else {
            Some(core::cmp::Ordering::Greater)
        }
    }
}

impl VideoMode {
    /// The mode's resolution in pixels.
    pub fn size(&self) -> (r: PhysicalSize)
        ensures
            r.width == self@.mode.width as u32,
            r.height == self@.mode.height as u32,
    {
        PhysicalSize::new(self.mode.width as u32, self.mode.height as u32)
    }

    /// The bit depth. A hardcoded constant, not a hardware query.
    pub fn bit_depth(&self) -> (r: u16)
        ensures
            r == 32,
    {
        32
    }

    /// The refresh rate in Hz, truncated from the kernel-reported vertical
    /// refresh to 16 bits.
    pub fn refresh_rate(&self) -> (r: u16)
        ensures
            r == self@.mode.vrefresh as int % 0x10000,
    {
        let low: u32 = self.mode.vrefresh % 0x10000;
        low as u16
    }

    /// The output this mode belongs to, in spec form.
    pub open spec fn spec_monitor(&self) -> ConnectorView {
        self@.connector
    }

    /// Reconstructs a fresh descriptor of the owning output from the stored
    /// copy of its snapshot. A value reconstruction, not a lookup: it works
    /// even after the original output descriptor is gone.
    pub fn monitor(&self) -> (r: MonitorHandle)
        ensures
            r@ == self.spec_monitor(),
    {
        MonitorHandle { info: self.connector.clone() }
    }
}

impl Clone for VideoMode {
    /// The clone carries the same timing data and owner snapshot.
    fn clone(&self) -> (r: Self)
        ensures
            r@ == self@,
    {
        VideoMode { mode: self.mode, connector: self.connector.clone() }
    }
}

impl PartialEq for VideoMode {
    /// Structural equality over the timing data and the owning output's
    /// snapshot.
    fn eq(&self, other: &Self) -> (r: bool) {
        let r = self.mode == other.mode && self.connector == other.connector;
        proof {
            if r {
                assert(self@ =~= other@);
            }
        }
        r
    }
}

impl vstd::std_specs::cmp::PartialEqSpecImpl for VideoMode {
    open spec fn obeys_eq_spec() -> bool {
        true
    }

    open spec fn eq_spec(&self, other: &Self) -> bool {
        self@ == other@
    }
}

/// Ordering of monitor handles is total, agrees with the interface
/// identifier in every case, and is antisymmetric: whichever order two
/// outputs were enumerated in, the one with the smaller identifier sorts
/// first.
pub proof fn lemma_ordering_total(a: MonitorHandle, b: MonitorHandle)
    ensures
        a.partial_cmp_spec(&b) is Some,
        a.partial_cmp_spec(&b) == Some(core::cmp::Ordering::Less) <==> a@.id < b@.id,
        a.partial_cmp_spec(&b) == Some(core::cmp::Ordering::Equal) <==> a@.id == b@.id,
        a.partial_cmp_spec(&b) == Some(core::cmp::Ordering::Greater) <==> a@.id > b@.id,
        a.partial_cmp_spec(&b) == Some(core::cmp::Ordering::Less) <==> b.partial_cmp_spec(&a)
            == Some(core::cmp::Ordering::Greater),
{
}

/// Ordering of monitor handles is transitive.
pub proof fn lemma_ordering_transitive(a: MonitorHandle, b: MonitorHandle, c: MonitorHandle)
    requires
        a.partial_cmp_spec(&b) == Some(core::cmp::Ordering::Less),
        b.partial_cmp_spec(&c) == Some(core::cmp::Ordering::Less),
    ensures
        a.partial_cmp_spec(&c) == Some(core::cmp::Ordering::Less),
{
}

/// Mode enumeration is restartable: any two results of
/// [`MonitorHandle::video_modes`] on the same handle have identical
/// contents in identical order, because each one's views equal
/// [`MonitorHandle::spec_video_modes`].
pub proof fn lemma_video_modes_restartable(
    m: MonitorHandle,
    r1: Seq<VideoModeView>,
    r2: Seq<VideoModeView>,
)
    requires
        r1 == m.spec_video_modes(),
        r2 == m.spec_video_modes(),
    ensures
        r1 == r2,
{
}

/// A video mode round-trips to its owning output: the back-reference every
/// mode of an output carries is that output's own snapshot, so the handle
/// [`VideoMode::monitor`] reconstructs has the output's view and in
/// particular its identifier.
pub proof fn lemma_monitor_round_trip(o: MonitorHandle, k: int)
    requires
        0 <= k < o.spec_video_modes().len(),
    ensures
        o.spec_video_modes()[k].connector == o@,
        o.spec_video_modes()[k].connector.id == o@.id,
{
}

} // verus!
