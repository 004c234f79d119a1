//! `<smartcard>` devices.
use vstd::prelude::*;
use crate::text::push_str;

verus! {

/// A `<smartcard>` element of a domain's `<devices>`.
#[derive(Debug, Clone)]
pub struct DeviceSmartcard {
    pub mode: String,
    pub smartcard_type: Option<String>,
}

impl DeviceSmartcard {
    /// The name shown for the device in the hardware list.
    pub open spec fn display_name_spec(&self) -> Seq<char> {
        "Smartcard "@ + self.mode@
    }

    /// `Smartcard ` followed by the mode.
    pub fn display_name(&self) -> (r: String)
        ensures
            r@ == self.display_name_spec(),
    {
        let mut r = String::new();
        push_str(&mut r, "Smartcard ");
        push_str(&mut r, self.mode.as_str());
        r
    }
}

} // verus!
