//! `<vsock>` devices.
use vstd::prelude::*;
use crate::text::owned;

verus! {

/// A `<vsock>` element of a domain's `<devices>`.
#[derive(Debug, Clone)]
pub struct DeviceVsock {
    pub model: Option<String>,
    pub cid: Option<VsockCid>,
}

/// The `<cid>` of a vsock device.
#[derive(Debug, Clone)]
pub struct VsockCid {
    pub auto: Option<String>,
    pub address: Option<String>,
}

impl DeviceVsock {
    /// The name shown for the device in the hardware list.
    pub open spec fn display_name_spec(&self) -> Seq<char> {
        "VSOCK"@
    }

    pub fn display_name(&self) -> (r: String)
        ensures
            r@ == self.display_name_spec(),
    {
        owned("VSOCK")
    }
}

} // verus!
