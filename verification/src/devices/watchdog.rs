//! `<watchdog>` devices.
use vstd::prelude::*;
use crate::text::push_str;

verus! {

/// A `<watchdog>` element of a domain's `<devices>`.
#[derive(Debug, Clone)]
pub struct DeviceWatchdog {
    pub model: String,
    pub action: Option<String>,
}

impl DeviceWatchdog {
    /// The name shown for the device in the hardware list.
    pub open spec fn display_name_spec(&self) -> Seq<char> {
        "Watchdog "@ + self.model@
    }

    /// `Watchdog ` followed by the model.
    pub fn display_name(&self) -> (r: String)
        ensures
            r@ == self.display_name_spec(),
    {
        let mut r = String::new();
        push_str(&mut r, "Watchdog ");
        push_str(&mut r, self.model.as_str());
        r
    }
}

} // verus!
