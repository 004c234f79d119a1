//! `<panic>` devices.
use vstd::prelude::*;
use crate::text::push_str;

verus! {

/// A `<panic>` element of a domain's `<devices>`.
#[derive(Debug, Clone)]
pub struct DevicePanic {
    pub model: String,
}

impl DevicePanic {
    /// The name shown for the device in the hardware list.
    pub open spec fn display_name_spec(&self) -> Seq<char> {
        "Panic "@ + self.model@
    }

    /// `Panic ` followed by the model.
    pub fn display_name(&self) -> (r: String)
        ensures
            r@ == self.display_name_spec(),
    {
        let mut r = String::new();
        push_str(&mut r, "Panic ");
        push_str(&mut r, self.model.as_str());
        r
    }
}

} // verus!
