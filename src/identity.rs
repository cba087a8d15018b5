use vstd::prelude::*;

verus! {

/// Identifier of an application window, derived from the identity of the
/// protocol surface that backs it.
#[derive(Debug, Clone, Copy, PartialEq, Eq, Structural, PartialOrd, Ord, Hash)]
pub struct WindowId(pub u64);

/// Device id shared by every input device: the protocol reports no
/// per-device events, so all of them carry this one value.
#[derive(Debug, Clone, Copy, PartialEq, Eq, Structural, PartialOrd, Ord, Hash)]
pub struct DeviceId;

impl DeviceId {
    /// The single device id value.
    pub fn dummy() -> (r: DeviceId)
        ensures
            r == DeviceId,
    {
        DeviceId
    }
}

/// The window id of a surface whose object identity is `surface_identity`.
pub open spec fn wid_of(surface_identity: u64) -> WindowId {
    WindowId(surface_identity)
}

/// Window id of the surface whose object identity is `surface_identity`:
/// the identity itself, read as an integer.
pub fn make_wid(surface_identity: u64) -> (r: WindowId)
    ensures
        r == wid_of(surface_identity),
{
    WindowId(surface_identity)
}

/// Distinct surfaces give distinct window ids, and one surface always gives
/// the same window id.
pub proof fn lemma_wid_injective(s1: u64, s2: u64)
    ensures
        s1 != s2 ==> wid_of(s1) != wid_of(s2),
        s1 == s2 ==> wid_of(s1) == wid_of(s2),
        wid_of(s1).0 == s1,
{
}

} // verus!
