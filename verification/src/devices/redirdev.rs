//! `<redirdev>` devices.
use vstd::prelude::*;
use crate::text::{decimal, push_str, push_u64, to_uppercase, upper_case};

verus! {

/// A `<redirdev>` element of a domain's `<devices>`.
#[derive(Debug, Clone)]
pub struct DeviceRedirdev {
    pub bus: String,
    pub redir_type: String,
}

impl DeviceRedirdev {
    /// The name shown for the device in the hardware list.
    pub open spec fn display_name_spec(&self, index: nat) -> Seq<char> {
        upper_case(self.bus@) + " Redirector "@ + decimal(index + 1)
    }

    /// `BUS Redirector N`: the bus in upper case and the one-based position.
    pub fn display_name(&self, index: usize) -> (r: String)
        requires
            index < usize::MAX,
        ensures
            r@ == self.display_name_spec(index as nat),
    {
        let mut r = to_uppercase(self.bus.as_str());
        push_str(&mut r, " Redirector ");
        push_u64(&mut r, (index + 1) as u64);
        r
    }
}

} // verus!
