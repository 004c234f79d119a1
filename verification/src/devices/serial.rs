//! `<serial>` devices.
use vstd::prelude::*;
use crate::text::{decimal, push_str, push_u64};

verus! {

/// A `<serial>` element of a domain's `<devices>`.
#[derive(Debug, Clone)]
pub struct DeviceSerial {
    pub serial_type: String,
    pub target: Option<SerialTarget>,
}

/// The `<target>` of a serial port.
#[derive(Debug, Clone)]
pub struct SerialTarget {
    pub target_type: Option<String>,
    pub port: Option<String>,
    pub model: Option<SerialTargetModel>,
}

/// The `<model>` of a serial port's target.
#[derive(Debug, Clone)]
pub struct SerialTargetModel {
    pub name: Option<String>,
}

impl DeviceSerial {
    /// The name shown for the device in the hardware list.
    pub open spec fn display_name_spec(&self, index: nat) -> Seq<char> {
        "Serial "@ + decimal(index + 1)
    }

    /// `Serial N`, where `N` is the one-based position `index + 1`.
    pub fn display_name(&self, index: usize) -> (r: String)
        requires
            index < usize::MAX,
        ensures
            r@ == self.display_name_spec(index as nat),
    {
        let mut r = String::new();
        push_str(&mut r, "Serial ");
        push_u64(&mut r, (index + 1) as u64);
        r
    }
}

} // verus!
